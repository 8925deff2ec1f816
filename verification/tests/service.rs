use dsh_launcher::command::{
    after_kill_tree, build_command, build_piped_command, run_ok, run_output, stdout_of,
    terminate_child, CommandOutput, CommandSpec, Platform, Stream, Termination,
};
use dsh_launcher::effect::{Effect, Notice, Pipe};
use dsh_launcher::error::LauncherError;
use dsh_launcher::pages::{webview_label_for, Host};
use dsh_launcher::state::{
    begin_restart, child_ended, AppState, LineEvent, SpawnReply, WaitReply, Watch,
    MONITOR_INTERVAL_MS, READY_NAV_DELAY_MS,
};

fn strings(list: &[&str]) -> Vec<String> {
    list.iter().map(|s| s.to_string()).collect()
}

fn host(labels: &[&str]) -> Host {
    Host { labels: strings(labels), main_view: true, main_window: true }
}

fn started(pid: u32) -> SpawnReply {
    SpawnReply::Started { pid, stdout: true, stderr: true }
}

fn line(text: &str) -> LineEvent {
    LineEvent::Line(text.to_string())
}

fn running(pid: u32) -> AppState {
    AppState { child: Some(pid), ..AppState::default() }
}

#[test]
fn service_command() {
    assert_eq!(
        build_command(Platform::Windows),
        CommandSpec {
            program: "cmd".to_string(),
            args: strings(&["/C", "npx @deepseek-ai/dsh web"]),
            no_window: true,
            own_group: false,
            stdin: Stream::Inherit,
            stdout: Stream::Inherit,
            stderr: Stream::Inherit,
        }
    );
    let unix = build_piped_command(Platform::Unix);
    assert_eq!(unix.program, "npx");
    assert_eq!(unix.args, strings(&["@deepseek-ai/dsh", "web"]));
    assert!(!unix.no_window && unix.own_group);
    assert!(build_command(Platform::Unix).own_group);
    assert!(!build_piped_command(Platform::Windows).own_group);
    assert_eq!((unix.stdin, unix.stdout, unix.stderr), (Stream::Null, Stream::Piped, Stream::Piped));
}

#[test]
fn shell_command() {
    let windows = run_output(Platform::Windows, "npm root -g");
    assert_eq!(windows.program, "cmd");
    assert_eq!(windows.args, strings(&["/C", "npm root -g"]));
    assert!(windows.no_window);
    let unix = run_output(Platform::Unix, "npm root -g");
    assert_eq!(unix.program, "sh");
    assert_eq!(unix.args, strings(&["-c", "npm root -g"]));
    assert!(!unix.own_group && !windows.own_group);
    assert_eq!((unix.stdin, unix.stdout, unix.stderr), (Stream::Null, Stream::Piped, Stream::Null));
}

#[test]
fn answers_of_commands() {
    let good = Some(CommandOutput { success: true, stdout: b"/home/u/.npm\n".to_vec() });
    let bad = Some(CommandOutput { success: false, stdout: vec![b'a', 0xff, b'b'] });
    assert!(run_ok(&good));
    assert!(!run_ok(&bad));
    assert!(!run_ok(&None));
    assert_eq!(stdout_of(&good), Some("/home/u/.npm\n".to_string()));
    assert_eq!(stdout_of(&bad), Some("a\u{fffd}b".to_string()));
    assert_eq!(stdout_of(&None), None);
    let chinese = Some(CommandOutput { success: true, stdout: "缓存".as_bytes().to_vec() });
    assert_eq!(stdout_of(&chinese), Some("缓存".to_string()));
}

#[test]
fn ending_a_child() {
    for pid in [0u32, 9, 10, 4711, u32::MAX] {
        match terminate_child(Platform::Windows, pid) {
            Termination::KillTree(command) => {
                assert_eq!(command.program, "taskkill");
                assert_eq!(command.args, strings(&["/F", "/T", "/PID", &pid.to_string()]));
                assert!(command.no_window);
                assert_eq!(command.stdout, Stream::Null);
            }
            Termination::Kill => panic!("the tree is to be killed"),
        }
    }
    for pid in [7u32, 10, 4711, u32::MAX] {
        assert_eq!(
            terminate_child(Platform::Unix, pid),
            Termination::KillTree(CommandSpec {
                program: "kill".to_string(),
                args: strings(&["-s", "KILL", "--", &format!("-{}", pid)]),
                no_window: false,
                own_group: false,
                stdin: Stream::Null,
                stdout: Stream::Null,
                stderr: Stream::Null,
            })
        );
    }
}

#[test]
fn a_child_outside_the_reach_of_the_command_is_killed_itself() {
    assert_eq!(after_kill_tree(Platform::Unix, false), Some(Termination::Kill));
    assert_eq!(after_kill_tree(Platform::Unix, true), None);
    assert_eq!(after_kill_tree(Platform::Windows, false), None);
    assert_eq!(after_kill_tree(Platform::Windows, true), None);
}

#[test]
fn start_then_refuse_a_second_start() {
    let mut state = AppState::default();
    assert_eq!(
        state.start_dsh(Platform::Unix),
        Ok(vec![Effect::Launch(build_piped_command(Platform::Unix))])
    );
    let reply = state.spawn_dsh_child(Platform::Unix, started(42));
    assert_eq!(reply.result, Ok(()));
    assert_eq!(
        reply.effects,
        vec![Effect::Monitor, Effect::Read(Pipe::Stdout), Effect::Read(Pipe::Stderr)]
    );
    assert_eq!(state.child, Some(42));
    assert_eq!(state.start_dsh(Platform::Unix), Err(LauncherError::AlreadyRunning));
}

#[test]
fn windows_children_join_the_job() {
    let mut state = AppState::default();
    let reply = state.spawn_dsh_child(Platform::Windows, started(42));
    assert_eq!(reply.effects[0], Effect::AssignToJob(42));
    assert_eq!(reply.effects.len(), 4);
}

#[test]
fn failed_launches_are_not_remembered() {
    let mut state = AppState::default();
    let reply = state.spawn_dsh_child(Platform::Unix, SpawnReply::Failed("gone".to_string()));
    assert_eq!(reply.result, Err(LauncherError::SpawnFailed("gone".to_string())));
    assert_eq!(reply.effects, vec![]);
    let mute = SpawnReply::Started { pid: 1, stdout: false, stderr: false };
    assert_eq!(
        state.spawn_dsh_child(Platform::Unix, mute).result,
        Err(LauncherError::NoStdout)
    );
    let half = SpawnReply::Started { pid: 1, stdout: true, stderr: false };
    let reply = state.spawn_dsh_child(Platform::Windows, half);
    assert_eq!(reply.result, Err(LauncherError::NoStderr));
    assert_eq!(reply.effects, vec![Effect::AssignToJob(1)]);
    assert_eq!(state, AppState::default());
}

#[test]
fn poisoned_child_lock() {
    let mut state = AppState { child_poisoned: true, ..AppState::default() };
    assert_eq!(state.start_dsh(Platform::Unix), Err(LauncherError::StateLock));
    assert_eq!(state.restart_dsh(), Err(LauncherError::StateLock));
    assert_eq!(
        state.spawn_dsh_child(Platform::Unix, started(3)).result,
        Err(LauncherError::StateLock)
    );
    assert_eq!(state.poll_child(WaitReply::Exited(Some(0))), Watch::Stop);
    assert_eq!(state.child, None);
}

#[test]
fn ready_is_reported_once() {
    let mut state = AppState::default();
    let (effects, more) = state.stream_reader(line("starting"));
    assert_eq!(effects, vec![Effect::Emit(Notice::Output("starting".to_string()))]);
    assert!(more && !state.ready);
    let (effects, more) = state.stream_reader(line("open http://127.0.0.1:3080/ now"));
    assert_eq!(
        effects,
        vec![
            Effect::Emit(Notice::Output("open http://127.0.0.1:3080/ now".to_string())),
            Effect::Emit(Notice::Ready),
            Effect::OpenTargetAfter(READY_NAV_DELAY_MS),
        ]
    );
    assert!(more && state.ready);
    let (effects, _) = state.stream_reader(line("127.0.0.1:3080"));
    assert_eq!(effects, vec![Effect::Emit(Notice::Output("127.0.0.1:3080".to_string()))]);
    assert_eq!(READY_NAV_DELAY_MS, 700);
    assert_eq!(MONITOR_INTERVAL_MS, 400);
}

#[test]
fn a_failed_read_stops_the_reader() {
    let mut state = AppState::default();
    assert_eq!(state.stream_reader(LineEvent::Failed), (vec![], false));
    assert_eq!(state, AppState::default());
}

#[test]
fn the_end_is_reported_once() {
    let mut state = running(5);
    assert_eq!(state.poll_child(WaitReply::Running), Watch::Continue);
    assert_eq!(state.poll_child(WaitReply::Exited(Some(1))), Watch::Report(Some(1)));
    assert_eq!(state.child, None);
    assert_eq!(state.poll_child(WaitReply::Exited(Some(1))), Watch::Stop);
    let mut state = running(5);
    assert_eq!(state.poll_child(WaitReply::Failed), Watch::Report(None));
    assert_eq!(state.poll_child(WaitReply::Failed), Watch::Stop);
    assert_eq!(
        child_ended(Some(1), &host(&["main", "dsh-1"])),
        vec![Effect::Emit(Notice::Exit(Some(1))), Effect::Hide("dsh-1".to_string())]
    );
}

#[test]
fn restart_ends_the_child_silently_and_launches_again() {
    let mut state = running(5);
    state.ready = true;
    assert_eq!(state.restart_dsh(), Ok(vec![Effect::Terminate(5)]));
    assert_eq!(state.poll_child(WaitReply::Exited(Some(1))), Watch::Stop);
    let page = webview_label_for("http://127.0.0.1:3080");
    let effects = state.child_terminated(&host(&["main", "dsh-1", &page]), Platform::Unix);
    assert_eq!(
        effects,
        vec![
            Effect::Hide("dsh-1".to_string()),
            Effect::Hide(page.clone()),
            Effect::Close(page.clone()),
            Effect::Launch(build_piped_command(Platform::Unix)),
        ]
    );
    assert!(!state.ready);
    assert_eq!(state.spawn_dsh_child(Platform::Unix, started(6)).result, Ok(()));
    let (effects, _) = state.stream_reader(line("127.0.0.1:3080"));
    assert_eq!(effects[1], Effect::Emit(Notice::Ready));
    assert_eq!(
        state.spawn_target_webview(&host(&["main", "dsh-1"])),
        vec![Effect::Create { label: page, url: "http://127.0.0.1:3080".to_string() }]
    );
}

#[test]
fn a_start_after_the_child_ended_awaits_readiness() {
    let mut state = AppState::default();
    for pid in [5u32, 6, 7] {
        assert!(state.start_dsh(Platform::Unix).is_ok());
        assert_eq!(state.spawn_dsh_child(Platform::Unix, started(pid)).result, Ok(()));
        assert!(!state.ready);
        let (effects, _) = state.stream_reader(line("127.0.0.1:3080"));
        assert_eq!(
            effects[1..],
            [Effect::Emit(Notice::Ready), Effect::OpenTargetAfter(READY_NAV_DELAY_MS)]
        );
        assert_eq!(state.stream_reader(line("127.0.0.1:3080")).0.len(), 1);
        assert_eq!(state.start_dsh(Platform::Unix), Err(LauncherError::AlreadyRunning));
        assert!(state.ready);
        assert_eq!(state.poll_child(WaitReply::Exited(Some(0))), Watch::Report(Some(0)));
    }
}

#[test]
fn a_start_that_fails_changes_nothing() {
    let mut state = AppState { ready: true, ..AppState::default() };
    assert!(state.start_dsh(Platform::Unix).is_ok());
    for reply in [
        SpawnReply::Failed("gone".to_string()),
        SpawnReply::Started { pid: 1, stdout: false, stderr: true },
        SpawnReply::Started { pid: 1, stdout: true, stderr: false },
    ] {
        assert!(state.spawn_dsh_child(Platform::Unix, reply).result.is_err());
        assert_eq!(state, AppState { ready: true, ..AppState::default() });
    }
}

#[test]
fn restart_needs_a_running_service() {
    let mut state = AppState::default();
    assert_eq!(state.restart_dsh(), Err(LauncherError::NotRunning));
    assert_eq!(
        state.child_terminated(&host(&["main"]), Platform::Windows),
        vec![Effect::Launch(build_piped_command(Platform::Windows))]
    );
    assert_eq!(begin_restart(&host(&["dsh-9"])), vec![Effect::Hide("dsh-9".to_string())]);
}

#[test]
fn reload() {
    let state = AppState::default();
    let page = webview_label_for("http://127.0.0.1:3080");
    assert_eq!(state.force_reload(&host(&["main"])), Err(LauncherError::PageNotLoaded));
    assert_eq!(
        state.force_reload(&host(&["main", &page])),
        Ok(vec![Effect::Hide(page.clone()), Effect::Reload(page.clone())])
    );
    let poisoned = AppState { target_poisoned: true, ..AppState::default() };
    assert_eq!(poisoned.force_reload(&host(&[&page])), Err(LauncherError::StateLock));
}

#[test]
fn open_a_new_address() {
    let mut state = AppState::default();
    let page = webview_label_for("http://box:3080");
    let reply = state.open_dsh_url("box:3080", &host(&["main", "dsh-1"]));
    assert_eq!(reply.result, Ok(false));
    assert_eq!(
        reply.effects,
        vec![
            Effect::Hide("dsh-1".to_string()),
            Effect::Create { label: page, url: "http://box:3080".to_string() },
        ]
    );
    assert_eq!(state.target_url, "http://box:3080");
}

#[test]
fn open_a_known_address() {
    let mut state = AppState::default();
    let page = webview_label_for("http://box:3080");
    let reply = state.open_dsh_url("http://box:3080", &host(&["dsh-1", &page]));
    assert_eq!(reply.result, Ok(true));
    assert_eq!(
        reply.effects,
        vec![
            Effect::Hide("dsh-1".to_string()),
            Effect::Hide(page.clone()),
            Effect::Show(page.clone()),
            Effect::Focus(page),
            Effect::Emit(Notice::PageShown),
        ]
    );
}

#[test]
fn open_what_cannot_be_opened() {
    let mut state = AppState::default();
    let reply = state.open_dsh_url("http://", &host(&["dsh-1"]));
    assert_eq!(reply.result, Err(LauncherError::BadAddress("empty host".to_string())));
    assert_eq!(reply.effects, vec![]);
    assert_eq!(state, AppState::default());
    let windowless =
        Host { labels: strings(&["dsh-1"]), main_view: false, main_window: false };
    let reply = state.open_dsh_url("box", &windowless);
    assert_eq!(reply.result, Err(LauncherError::NoMainWindow));
    assert_eq!(reply.effects, vec![Effect::Hide("dsh-1".to_string())]);
    assert_eq!(state.target_url, "http://box");
    let reply = state.open_dsh_url("ftp://box", &host(&["dsh-1"]));
    assert_eq!(reply.result, Err(LauncherError::UnsupportedScheme));
    assert_eq!(reply.effects, vec![]);
    assert_eq!(state.target_url, "http://box");
    let reply = state.open_parsed("ftp://box".to_string(), &windowless, Ok("ftp".to_string()));
    assert_eq!(reply.result, Err(LauncherError::UnsupportedScheme));
}

#[test]
fn the_target_page_falls_back_to_the_local_service() {
    let mut state = AppState::default();
    assert_eq!(state.set_dsh_url("box"), Ok(()));
    state.target_poisoned = true;
    let created = state.spawn_target_webview(&host(&["main"]));
    assert_eq!(
        created,
        vec![Effect::Create {
            label: webview_label_for("http://127.0.0.1:3080"),
            url: "http://127.0.0.1:3080".to_string(),
        }]
    );
    let nowhere = Host { labels: vec![], main_view: false, main_window: false };
    assert_eq!(state.spawn_target_webview(&nowhere), vec![]);
    assert_eq!(state.open_target_parsed(&host(&[]), &Err("no".to_string())), vec![]);
}

#[test]
fn children_are_accounted_for() {
    let mut state = AppState::default();
    let mut taken = 0;
    let mut gone = 0;
    for round in 0..6u32 {
        if state.spawn_dsh_child(Platform::Unix, started(round)).result.is_ok() {
            taken += 1;
        }
        if round % 2 == 0 {
            if state.restart_dsh().is_ok() {
                gone += 1;
            }
        } else {
            for _ in 0..3 {
                if matches!(state.poll_child(WaitReply::Exited(None)), Watch::Report(_)) {
                    gone += 1;
                }
            }
        }
        assert_eq!(state.child, None);
        assert_eq!(taken, gone);
    }
    assert_eq!(taken, 6);
}
