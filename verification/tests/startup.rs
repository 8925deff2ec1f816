use dsh_launcher::command::{CommandOutput, Platform};
use dsh_launcher::deps::{
    check_deps, next_probe, Answer, DepsStatus, Entry, PathSpec, Probe, Stage,
};

/// A made-up machine that answers the questions of the startup check.
struct Machine {
    npx: Option<bool>,
    cache: Option<&'static str>,
    local: Option<&'static str>,
    npx_dir: Option<&'static str>,
    entries: Vec<Option<bool>>,
    global: Option<&'static str>,
    global_dir: Option<&'static str>,
}

fn bare() -> Machine {
    Machine {
        npx: Some(true),
        cache: None,
        local: None,
        npx_dir: None,
        entries: vec![],
        global: None,
        global_dir: None,
    }
}

fn written(path: &PathSpec) -> String {
    let mut text = path.root.clone();
    for part in &path.parts {
        text = format!("{}/{}", text, part);
    }
    text
}

fn output(text: Option<&str>) -> Answer {
    Answer::Output(text.map(|t| CommandOutput { success: true, stdout: t.as_bytes().to_vec() }))
}

fn run(machine: &Machine, platform: Platform) -> (DepsStatus, Vec<String>) {
    let mut asked = vec![];
    let mut taken = 0;
    let (mut stage, mut probe) = check_deps();
    loop {
        let answer = match &probe {
            Probe::Shell(cmdline) => {
                asked.push(cmdline.clone());
                match cmdline.as_str() {
                    "npx --version" => Answer::Output(
                        machine.npx.map(|success| CommandOutput { success, stdout: vec![] }),
                    ),
                    "npm config get cache" => output(machine.cache),
                    "npm root -g" => output(machine.global),
                    other => panic!("unexpected command {}", other),
                }
            }
            Probe::Variable(name) => {
                asked.push(name.clone());
                Answer::Value(machine.local.map(|v| v.to_string()))
            }
            Probe::OpenDir(path) => {
                asked.push(written(path));
                Answer::Yes(machine.npx_dir == Some(written(path).as_str()))
            }
            Probe::NextEntry => {
                taken += 1;
                Answer::Entry(match machine.entries.get(taken - 1) {
                    None => Entry::End,
                    Some(None) => Entry::Unreadable,
                    Some(Some(_)) => Entry::Taken,
                })
            }
            Probe::IsDirInEntry(parts) => {
                assert_eq!(parts, &vec!["node_modules", "@deepseek-ai", "dsh"]);
                Answer::Yes(machine.entries[taken - 1] == Some(true))
            }
            Probe::IsDir(path) => {
                asked.push(written(path));
                Answer::Yes(machine.global_dir == Some(written(path).as_str()))
            }
            Probe::Report(status) => return (*status, asked),
        };
        let next = next_probe(platform, stage, answer);
        stage = next.0;
        probe = next.1;
    }
}

fn status(npx_ok: bool, dsh_ok: bool) -> DepsStatus {
    DepsStatus { npx_ok, dsh_ok }
}

#[test]
fn without_npx_nothing_else_is_asked() {
    for npx in [None, Some(false)] {
        let machine = Machine { npx, global: Some("/g"), global_dir: Some("/g/@deepseek-ai/dsh"), ..bare() };
        let (found, asked) = run(&machine, Platform::Unix);
        assert_eq!(found, status(false, false));
        assert_eq!(asked, vec!["npx --version"]);
    }
}

#[test]
fn package_in_the_cache() {
    let machine = Machine {
        cache: Some(" /home/u/.npm \n"),
        npx_dir: Some("/home/u/.npm/_npx"),
        entries: vec![None, Some(false), Some(true), Some(false)],
        ..bare()
    };
    let (found, asked) = run(&machine, Platform::Unix);
    assert_eq!(found, status(true, true));
    assert_eq!(asked, vec!["npx --version", "npm config get cache", "/home/u/.npm/_npx"]);
}

#[test]
fn package_installed_globally() {
    let machine = Machine {
        cache: Some("/c"),
        npx_dir: Some("/c/_npx"),
        entries: vec![Some(false), None],
        global: Some("/g\n"),
        global_dir: Some("/g/@deepseek-ai/dsh"),
        ..bare()
    };
    let (found, asked) = run(&machine, Platform::Unix);
    assert_eq!(found, status(true, true));
    assert_eq!(asked[3..], ["npm root -g".to_string(), "/g/@deepseek-ai/dsh".to_string()]);
}

#[test]
fn package_nowhere() {
    assert_eq!(run(&bare(), Platform::Unix).0, status(true, false));
    let machine = Machine { cache: Some("/c"), global: Some("/g"), ..bare() };
    let (found, asked) = run(&machine, Platform::Unix);
    assert_eq!(found, status(true, false));
    assert_eq!(
        asked,
        vec!["npx --version", "npm config get cache", "/c/_npx", "npm root -g", "/g/@deepseek-ai/dsh"]
    );
}

#[test]
fn a_blank_global_root_holds_nothing() {
    for blank in ["", "\n", " \t\r\n"] {
        let machine =
            Machine { global: Some(blank), global_dir: Some("/@deepseek-ai/dsh"), ..bare() };
        let (found, asked) = run(&machine, Platform::Unix);
        assert_eq!(found, status(true, false));
        assert_eq!(asked.last().unwrap(), "npm root -g");
    }
    let machine =
        Machine { global: Some("/"), global_dir: Some("//@deepseek-ai/dsh"), ..bare() };
    assert_eq!(run(&machine, Platform::Unix).0, status(true, true));
}

#[test]
fn windows_falls_back_to_local_data() {
    let machine = Machine {
        cache: Some("  \r\n"),
        local: Some("C:\\L"),
        npx_dir: Some("C:\\L/npm-cache/_npx"),
        entries: vec![Some(true)],
        ..bare()
    };
    let (found, asked) = run(&machine, Platform::Windows);
    assert_eq!(found, status(true, true));
    assert_eq!(asked[2..], ["LOCALAPPDATA".to_string(), "C:\\L/npm-cache/_npx".to_string()]);
    let (found, asked) = run(&machine, Platform::Unix);
    assert_eq!(found, status(true, false));
    assert!(!asked.contains(&"LOCALAPPDATA".to_string()));
    let unset = Machine { local: None, ..machine };
    assert_eq!(run(&unset, Platform::Windows).0, status(true, false));
}

#[test]
fn answers_of_the_wrong_kind_are_no_answers() {
    let (stage, probe) = next_probe(Platform::Unix, Stage::Npx, Answer::Yes(true));
    assert_eq!(stage, Stage::Done(status(false, false)));
    assert_eq!(probe, Probe::Report(status(false, false)));
    let (_, probe) = next_probe(Platform::Unix, Stage::Walking, Answer::Yes(true));
    assert_eq!(probe, Probe::Shell("npm root -g".to_string()));
    let (_, probe) = next_probe(Platform::Unix, Stage::Done(status(true, true)), Answer::Yes(false));
    assert_eq!(probe, Probe::Report(status(true, true)));
}
