use dsh_launcher::config::{
    load_addresses, load_last_url, read_config, save_addresses, save_last_url, AppConfig,
    ConfigAction, ConfigEvent, ConfigReply, ConfigRequest, ConfigTask,
};
use dsh_launcher::error::LauncherError;

/// A made-up cache directory whose file holds one line per remembered thing.
struct Disk {
    located: Result<(), String>,
    created: Result<(), String>,
    file: Option<String>,
    writable: Result<(), String>,
    printable: bool,
}

fn disk(file: Option<&str>) -> Disk {
    Disk {
        located: Ok(()),
        created: Ok(()),
        file: file.map(|f| f.to_string()),
        writable: Ok(()),
        printable: true,
    }
}

fn print(config: &AppConfig) -> String {
    let mut text = format!("{:?}\n", config.last_url);
    for url in &config.urls {
        text = format!("{}{}\n", text, url);
    }
    text
}

fn parse(text: &str) -> Option<AppConfig> {
    let mut lines = text.lines();
    let first = lines.next()?;
    let last_url = if first == "None" {
        None
    } else {
        Some(first.strip_prefix("Some(\"")?.strip_suffix("\")")?.to_string())
    };
    Some(AppConfig { urls: lines.map(|l| l.to_string()).collect(), last_url })
}

fn serve(disk: &mut Disk, request: ConfigRequest) -> ConfigReply {
    let (mut task, mut action) = ConfigTask::begin(request);
    loop {
        let event = match action {
            ConfigAction::Locate => ConfigEvent::Done(disk.located.clone()),
            ConfigAction::CreateDir => ConfigEvent::Done(disk.created.clone()),
            ConfigAction::ReadFile => ConfigEvent::Text(disk.file.clone()),
            ConfigAction::Parse(text) => ConfigEvent::Parsed(parse(&text)),
            ConfigAction::Print(config) => ConfigEvent::Printed(if disk.printable {
                Ok(print(&config))
            } else {
                Err("unprintable".to_string())
            }),
            ConfigAction::WriteFile(text) => {
                if disk.writable.is_ok() {
                    disk.file = Some(text);
                }
                ConfigEvent::Done(disk.writable.clone())
            }
            ConfigAction::Reply(reply) => return reply,
        };
        let next = task.next(event);
        task = next.0;
        action = next.1;
    }
}

fn strings(list: &[&str]) -> Vec<String> {
    list.iter().map(|s| s.to_string()).collect()
}

#[test]
fn saved_addresses_come_back() {
    let mut d = disk(None);
    assert_eq!(serve(&mut d, ConfigRequest::LoadAddresses), ConfigReply::Addresses(vec![]));
    assert_eq!(serve(&mut d, ConfigRequest::LoadLastUrl), ConfigReply::LastUrl(None));
    let urls = strings(&["a:3080", "b:3080"]);
    assert_eq!(
        serve(&mut d, ConfigRequest::SaveLastUrl("b:3080".to_string())),
        ConfigReply::Saved(Ok(()))
    );
    assert_eq!(
        serve(&mut d, ConfigRequest::SaveAddresses(urls.clone())),
        ConfigReply::Saved(Ok(()))
    );
    assert_eq!(serve(&mut d, ConfigRequest::LoadAddresses), ConfigReply::Addresses(urls.clone()));
    assert_eq!(
        serve(&mut d, ConfigRequest::LoadLastUrl),
        ConfigReply::LastUrl(Some("b:3080".to_string()))
    );
    assert_eq!(
        serve(&mut d, ConfigRequest::SaveLastUrl("a:3080".to_string())),
        ConfigReply::Saved(Ok(()))
    );
    assert_eq!(serve(&mut d, ConfigRequest::LoadAddresses), ConfigReply::Addresses(urls));
}

#[test]
fn each_part_outlasts_saves_of_the_other() {
    for urls in [vec![], strings(&["b:3080", "a:3080", "b:3080"])] {
        let mut d = disk(Some("None\nold\n"));
        serve(&mut d, ConfigRequest::SaveAddresses(urls.clone()));
        for url in ["x", " y ", "z"] {
            let reply = serve(&mut d, ConfigRequest::SaveLastUrl(url.to_string()));
            assert_eq!(reply, ConfigReply::Saved(Ok(())));
            d.located = Err("nowhere".to_string());
            let lost = serve(&mut d, ConfigRequest::LoadAddresses);
            assert_eq!(lost, ConfigReply::Addresses(vec![]));
            d.located = Ok(());
        }
        let loaded = serve(&mut d, ConfigRequest::LoadAddresses);
        assert_eq!(loaded, ConfigReply::Addresses(urls));
    }
    let mut d = disk(None);
    serve(&mut d, ConfigRequest::SaveLastUrl(" Box:3080 ".to_string()));
    for urls in [strings(&["a"]), vec![], strings(&["b", "c"])] {
        let reply = serve(&mut d, ConfigRequest::SaveAddresses(urls));
        assert_eq!(reply, ConfigReply::Saved(Ok(())));
    }
    assert_eq!(
        serve(&mut d, ConfigRequest::LoadLastUrl),
        ConfigReply::LastUrl(Some(" Box:3080 ".to_string()))
    );
}

#[test]
fn unreadable_memory_is_empty() {
    let mut d = disk(Some("rubbish"));
    assert_eq!(serve(&mut d, ConfigRequest::LoadAddresses), ConfigReply::Addresses(vec![]));
    let mut d = disk(Some("None\na\n"));
    d.located = Err("nowhere".to_string());
    assert_eq!(serve(&mut d, ConfigRequest::LoadAddresses), ConfigReply::Addresses(vec![]));
    let mut d = disk(Some("None\na\n"));
    d.created = Err("read-only".to_string());
    assert_eq!(serve(&mut d, ConfigRequest::LoadAddresses), ConfigReply::Addresses(vec![]));
    let mut d = disk(Some("None\na\n"));
    assert_eq!(
        serve(&mut d, ConfigRequest::LoadAddresses),
        ConfigReply::Addresses(strings(&["a"]))
    );
}

#[test]
fn failures_to_save() {
    let save = || ConfigRequest::SaveAddresses(vec![]);
    let mut d = disk(None);
    d.located = Err("nowhere".to_string());
    let reply = serve(&mut d, save());
    assert_eq!(
        reply,
        ConfigReply::Saved(Err(LauncherError::CacheDirUnknown("nowhere".to_string())))
    );
    let mut d = disk(None);
    d.created = Err("read-only".to_string());
    assert_eq!(
        serve(&mut d, save()),
        ConfigReply::Saved(Err(LauncherError::CacheDirNotCreated("read-only".to_string())))
    );
    let mut d = disk(None);
    d.printable = false;
    assert_eq!(
        serve(&mut d, save()),
        ConfigReply::Saved(Err(LauncherError::Host("unprintable".to_string())))
    );
    let mut d = disk(None);
    d.writable = Err("full".to_string());
    assert_eq!(
        serve(&mut d, save()),
        ConfigReply::Saved(Err(LauncherError::Host("full".to_string())))
    );
    assert_eq!(d.file, None);
}

#[test]
fn parts_of_a_configuration() {
    assert_eq!(read_config(None), AppConfig { urls: vec![], last_url: None });
    assert_eq!(read_config(None), AppConfig::default());
    let config = || AppConfig { urls: strings(&["a"]), last_url: Some("b".to_string()) };
    assert_eq!(read_config(Some(config())), config());
    assert_eq!(load_addresses(config()), strings(&["a"]));
    assert_eq!(load_last_url(config()), Some("b".to_string()));
    assert_eq!(
        save_addresses(config(), strings(&["c"])),
        AppConfig { urls: strings(&["c"]), last_url: Some("b".to_string()) }
    );
    assert_eq!(
        save_last_url(config(), "c".to_string()),
        AppConfig { urls: strings(&["a"]), last_url: Some("c".to_string()) }
    );
}

#[test]
fn results_of_the_wrong_kind_are_failures() {
    let (task, _) = ConfigTask::begin(ConfigRequest::LoadLastUrl);
    let (_, action) = task.next(ConfigEvent::Text(None));
    assert_eq!(action, ConfigAction::Reply(ConfigReply::LastUrl(None)));
    let (_, action) = ConfigTask::WriteText.next(ConfigEvent::Text(None));
    assert_eq!(
        action,
        ConfigAction::Reply(ConfigReply::Saved(Err(LauncherError::Host(String::new()))))
    );
    let (_, action) = ConfigTask::WritePrint.next(ConfigEvent::Text(None));
    assert_eq!(
        action,
        ConfigAction::Reply(ConfigReply::Saved(Err(LauncherError::Host(String::new()))))
    );
}
