//! The remembered addresses: a small file in the user's cache directory.
//!
//! A request is worked off one step at a time. [`ConfigTask::begin`] names the first step, and
//! [`ConfigTask::next`] turns the result of each step into the next one, until there is a reply.
use crate::error::{LauncherError, LauncherErrorView};
use crate::text::texts;
use vstd::prelude::*;
use vstd::string::*;

verus! {

/// The name of the file below the cache directory.
pub const CONFIG_FILE: &'static str = "config.json";

/// What is remembered between runs.
#[derive(Debug, PartialEq, Eq)]
pub struct AppConfig {
    /// The addresses in the dropdown.
    pub urls: Vec<String>,
    /// The address used last.
    pub last_url: Option<String>,
}

/// The contents of an [`AppConfig`].
#[verifier::ext_equal]
pub struct ConfigView {
    pub urls: Seq<Seq<char>>,
    pub last_url: Option<Seq<char>>,
}

/// The contents of an optional string.
pub open spec fn text_view(text: Option<String>) -> Option<Seq<char>> {
    match text {
        Some(t) => Some(t@),
        None => None,
    }
}

impl View for AppConfig {
    type V = ConfigView;

    open spec fn view(&self) -> ConfigView {
        ConfigView { urls: texts(self.urls@), last_url: text_view(self.last_url) }
    }
}

impl ConfigView {
    /// Nothing is remembered.
    pub open spec fn initial() -> ConfigView {
        ConfigView { urls: Seq::empty(), last_url: None }
    }
}

impl Default for AppConfig {
    fn default() -> (config: Self)
        ensures
            config@ == ConfigView::initial(),
    {
        let urls: Vec<String> = Vec::new();
        assert(texts(urls@) =~= Seq::empty());
        AppConfig { urls, last_url: None }
    }
}

/// What is asked of the remembered addresses.
#[derive(Debug, PartialEq, Eq)]
pub enum ConfigRequest {
    LoadAddresses,
    SaveAddresses(Vec<String>),
    LoadLastUrl,
    SaveLastUrl(String),
}

/// The contents of a [`ConfigRequest`].
pub enum RequestView {
    LoadAddresses,
    SaveAddresses(Seq<Seq<char>>),
    LoadLastUrl,
    SaveLastUrl(Seq<char>),
}

impl View for ConfigRequest {
    type V = RequestView;

    open spec fn view(&self) -> RequestView {
        match self {
            ConfigRequest::LoadAddresses => RequestView::LoadAddresses,
            ConfigRequest::SaveAddresses(urls) => RequestView::SaveAddresses(texts(urls@)),
            ConfigRequest::LoadLastUrl => RequestView::LoadLastUrl,
            ConfigRequest::SaveLastUrl(url) => RequestView::SaveLastUrl(url@),
        }
    }
}

/// The answer to a request.
#[derive(Debug, PartialEq, Eq)]
pub enum ConfigReply {
    Addresses(Vec<String>),
    LastUrl(Option<String>),
    Saved(Result<(), LauncherError>),
}

/// The contents of a [`ConfigReply`].
pub enum ConfigReplyView {
    Addresses(Seq<Seq<char>>),
    LastUrl(Option<Seq<char>>),
    Saved(Result<(), LauncherErrorView>),
}

impl View for ConfigReply {
    type V = ConfigReplyView;

    open spec fn view(&self) -> ConfigReplyView {
        match self {
            ConfigReply::Addresses(urls) => ConfigReplyView::Addresses(texts(urls@)),
            ConfigReply::LastUrl(url) => ConfigReplyView::LastUrl(text_view(*url)),
            ConfigReply::Saved(Ok(_)) => ConfigReplyView::Saved(Ok(())),
            ConfigReply::Saved(Err(error)) => ConfigReplyView::Saved(Err(error@)),
        }
    }
}

/// One step for the surroundings, or the reply.
#[derive(Debug, PartialEq, Eq)]
pub enum ConfigAction {
    /// Find the user's cache directory.
    Locate,
    /// Create that directory with its parents, if it is missing.
    CreateDir,
    /// Read the file in it.
    ReadFile,
    /// Parse what was read.
    Parse(String),
    /// Print a configuration.
    Print(AppConfig),
    /// Write the file.
    WriteFile(String),
    /// The request is worked off.
    Reply(ConfigReply),
}

/// The contents of a [`ConfigAction`].
pub enum ActionView {
    Locate,
    CreateDir,
    ReadFile,
    Parse(Seq<char>),
    Print(ConfigView),
    WriteFile(Seq<char>),
    Reply(ConfigReplyView),
}

impl View for ConfigAction {
    type V = ActionView;

    open spec fn view(&self) -> ActionView {
        match self {
            ConfigAction::Locate => ActionView::Locate,
            ConfigAction::CreateDir => ActionView::CreateDir,
            ConfigAction::ReadFile => ActionView::ReadFile,
            ConfigAction::Parse(text) => ActionView::Parse(text@),
            ConfigAction::Print(config) => ActionView::Print(config@),
            ConfigAction::WriteFile(text) => ActionView::WriteFile(text@),
            ConfigAction::Reply(reply) => ActionView::Reply(reply@),
        }
    }
}

/// The result of a step.
#[derive(Debug, PartialEq, Eq)]
pub enum ConfigEvent {
    /// A step that yields nothing is done, or failed with a message.
    Done(Result<(), String>),
    /// What the file holds, if it can be read.
    Text(Option<String>),
    /// The configuration that was parsed, if it is one.
    Parsed(Option<AppConfig>),
    /// The text that was printed, or the message of the failure.
    Printed(Result<String, String>),
}

/// The contents of a [`ConfigEvent`].
pub enum EventView {
    Done(Result<(), Seq<char>>),
    Text(Option<Seq<char>>),
    Parsed(Option<ConfigView>),
    Printed(Result<Seq<char>, Seq<char>>),
}

impl View for ConfigEvent {
    type V = EventView;

    open spec fn view(&self) -> EventView {
        match self {
            ConfigEvent::Done(Ok(_)) => EventView::Done(Ok(())),
            ConfigEvent::Done(Err(message)) => EventView::Done(Err(message@)),
            ConfigEvent::Text(text) => EventView::Text(text_view(*text)),
            ConfigEvent::Parsed(Some(config)) => EventView::Parsed(Some(config@)),
            ConfigEvent::Parsed(None) => EventView::Parsed(None),
            ConfigEvent::Printed(Ok(text)) => EventView::Printed(Ok(text@)),
            ConfigEvent::Printed(Err(message)) => EventView::Printed(Err(message@)),
        }
    }
}

impl EventView {
    /// How the step ended; a result of another kind counts as a failure without a message.
    pub open spec fn done(self) -> Result<(), Seq<char>> {
        match self {
            EventView::Done(result) => result,
            _ => Err(Seq::empty()),
        }
    }

    /// The text read; a result of another kind counts as a file that cannot be read.
    pub open spec fn text(self) -> Option<Seq<char>> {
        match self {
            EventView::Text(text) => text,
            _ => None,
        }
    }

    /// The configuration parsed; a result of another kind counts as text that is none.
    pub open spec fn parsed(self) -> Option<ConfigView> {
        match self {
            EventView::Parsed(config) => config,
            _ => None,
        }
    }

    /// The text printed; a result of another kind counts as a failure without a message.
    pub open spec fn printed(self) -> Result<Seq<char>, Seq<char>> {
        match self {
            EventView::Printed(result) => result,
            _ => Err(Seq::empty()),
        }
    }
}

/// A request that is being worked off: what is still needed of it, and the step whose result is
/// awaited.
#[derive(Debug, PartialEq, Eq)]
pub enum ConfigTask {
    ReadLocate(ConfigRequest),
    ReadCreate(ConfigRequest),
    ReadText(ConfigRequest),
    ReadParse(ConfigRequest),
    WriteLocate(AppConfig),
    WriteCreate(AppConfig),
    WritePrint,
    WriteText,
    Replied,
}

/// The contents of a [`ConfigTask`].
pub enum TaskView {
    ReadLocate(RequestView),
    ReadCreate(RequestView),
    ReadText(RequestView),
    ReadParse(RequestView),
    WriteLocate(ConfigView),
    WriteCreate(ConfigView),
    WritePrint,
    WriteText,
    Replied,
}

impl View for ConfigTask {
    type V = TaskView;

    open spec fn view(&self) -> TaskView {
        match self {
            ConfigTask::ReadLocate(request) => TaskView::ReadLocate(request@),
            ConfigTask::ReadCreate(request) => TaskView::ReadCreate(request@),
            ConfigTask::ReadText(request) => TaskView::ReadText(request@),
            ConfigTask::ReadParse(request) => TaskView::ReadParse(request@),
            ConfigTask::WriteLocate(config) => TaskView::WriteLocate(config@),
            ConfigTask::WriteCreate(config) => TaskView::WriteCreate(config@),
            ConfigTask::WritePrint => TaskView::WritePrint,
            ConfigTask::WriteText => TaskView::WriteText,
            ConfigTask::Replied => TaskView::Replied,
        }
    }
}

/// A configuration with other addresses in the dropdown.
pub open spec fn with_addresses(config: ConfigView, urls: Seq<Seq<char>>) -> ConfigView {
    ConfigView { urls, ..config }
}

/// A configuration with another address used last.
pub open spec fn with_last_url(config: ConfigView, url: Seq<char>) -> ConfigView {
    ConfigView { last_url: Some(url), ..config }
}

/// What follows once the configuration has been read: a reply, or the writing of a changed one.
pub open spec fn config_read(request: RequestView, config: ConfigView) -> (TaskView, ActionView) {
    match request {
        RequestView::LoadAddresses => (
            TaskView::Replied,
            ActionView::Reply(ConfigReplyView::Addresses(config.urls)),
        ),
        RequestView::LoadLastUrl => (
            TaskView::Replied,
            ActionView::Reply(ConfigReplyView::LastUrl(config.last_url)),
        ),
        RequestView::SaveAddresses(urls) => (
            TaskView::WriteLocate(with_addresses(config, urls)),
            ActionView::Locate,
        ),
        RequestView::SaveLastUrl(url) => (
            TaskView::WriteLocate(with_last_url(config, url)),
            ActionView::Locate,
        ),
    }
}

/// The reply to a request to save.
pub open spec fn saved(result: Result<(), LauncherErrorView>) -> (TaskView, ActionView) {
    (TaskView::Replied, ActionView::Reply(ConfigReplyView::Saved(result)))
}

impl TaskView {
    /// The step that follows the result of the one awaited. A configuration that cannot be found,
    /// read or parsed is the initial one.
    pub open spec fn following(self, event: EventView) -> (TaskView, ActionView)
        recommends
            self !is Replied,
    {
        match self {
            TaskView::ReadLocate(request) => if event.done() is Ok {
                (TaskView::ReadCreate(request), ActionView::CreateDir)
            } else {
                config_read(request, ConfigView::initial())
            },
            TaskView::ReadCreate(request) => if event.done() is Ok {
                (TaskView::ReadText(request), ActionView::ReadFile)
            } else {
                config_read(request, ConfigView::initial())
            },
            TaskView::ReadText(request) => match event.text() {
                Some(text) => (TaskView::ReadParse(request), ActionView::Parse(text)),
                None => config_read(request, ConfigView::initial()),
            },
            TaskView::ReadParse(request) => match event.parsed() {
                Some(config) => config_read(request, config),
                None => config_read(request, ConfigView::initial()),
            },
            TaskView::WriteLocate(config) => match event.done() {
                Ok(_) => (TaskView::WriteCreate(config), ActionView::CreateDir),
                Err(message) => saved(Err(LauncherErrorView::CacheDirUnknown(message))),
            },
            TaskView::WriteCreate(config) => match event.done() {
                Ok(_) => (TaskView::WritePrint, ActionView::Print(config)),
                Err(message) => saved(Err(LauncherErrorView::CacheDirNotCreated(message))),
            },
            TaskView::WritePrint => match event.printed() {
                Ok(text) => (TaskView::WriteText, ActionView::WriteFile(text)),
                Err(message) => saved(Err(LauncherErrorView::Host(message))),
            },
            TaskView::WriteText => match event.done() {
                Ok(_) => saved(Ok(())),
                Err(message) => saved(Err(LauncherErrorView::Host(message))),
            },
            TaskView::Replied => arbitrary(),
        }
    }
}

fn done_in(event: ConfigEvent) -> (result: Result<(), String>)
    ensures
        match result {
            Ok(_) => event@.done() == Ok::<(), Seq<char>>(()),
            Err(message) => event@.done() == Err::<(), Seq<char>>(message@),
        },
{
    match event {
        ConfigEvent::Done(result) => result,
        _ => Err(String::new()),
    }
}

fn printed_in(event: ConfigEvent) -> (result: Result<String, String>)
    ensures
        match result {
            Ok(text) => event@.printed() == Ok::<Seq<char>, Seq<char>>(text@),
            Err(message) => event@.printed() == Err::<Seq<char>, Seq<char>>(message@),
        },
{
    match event {
        ConfigEvent::Printed(result) => result,
        _ => Err(String::new()),
    }
}

/// The configuration that was parsed, or the initial one.
pub fn read_config(parsed: Option<AppConfig>) -> (config: AppConfig)
    ensures
        config@ == (match parsed {
            Some(found) => found@,
            None => ConfigView::initial(),
        }),
{
    match parsed {
        Some(found) => found,
        None => AppConfig::default(),
    }
}

/// The addresses in the dropdown.
pub fn load_addresses(config: AppConfig) -> (urls: Vec<String>)
    ensures
        texts(urls@) == config@.urls,
{
    config.urls
}

/// The configuration with other addresses in the dropdown.
pub fn save_addresses(config: AppConfig, urls: Vec<String>) -> (changed: AppConfig)
    ensures
        changed@ == with_addresses(config@, texts(urls@)),
{
    AppConfig { urls, last_url: config.last_url }
}

/// The address used last.
pub fn load_last_url(config: AppConfig) -> (url: Option<String>)
    ensures
        text_view(url) == config@.last_url,
{
    config.last_url
}

/// The configuration with another address used last.
pub fn save_last_url(config: AppConfig, url: String) -> (changed: AppConfig)
    ensures
        changed@ == with_last_url(config@, url@),
{
    AppConfig { urls: config.urls, last_url: Some(url) }
}

fn reply_saved(result: Result<(), LauncherError>) -> (next: (ConfigTask, ConfigAction))
    ensures
        (next.0@, next.1@) == saved(
            match result {
                Ok(_) => Ok(()),
                Err(error) => Err(error@),
            },
        ),
{
    (ConfigTask::Replied, ConfigAction::Reply(ConfigReply::Saved(result)))
}

/// Goes on once the configuration has been read.
fn go_on(request: ConfigRequest, config: AppConfig) -> (next: (ConfigTask, ConfigAction))
    ensures
        (next.0@, next.1@) == config_read(request@, config@),
{
    match request {
        ConfigRequest::LoadAddresses => (
            ConfigTask::Replied,
            ConfigAction::Reply(ConfigReply::Addresses(load_addresses(config))),
        ),
        ConfigRequest::LoadLastUrl => (
            ConfigTask::Replied,
            ConfigAction::Reply(ConfigReply::LastUrl(load_last_url(config))),
        ),
        ConfigRequest::SaveAddresses(urls) => (
            ConfigTask::WriteLocate(save_addresses(config, urls)),
            ConfigAction::Locate,
        ),
        ConfigRequest::SaveLastUrl(url) => (
            ConfigTask::WriteLocate(save_last_url(config, url)),
            ConfigAction::Locate,
        ),
    }
}

impl ConfigTask {
    /// Begins to work off a request: every request reads the configuration first.
    pub fn begin(request: ConfigRequest) -> (first: (ConfigTask, ConfigAction))
        ensures
            (first.0@, first.1@) == (TaskView::ReadLocate(request@), ActionView::Locate),
    {
        (ConfigTask::ReadLocate(request), ConfigAction::Locate)
    }

    /// The step that follows the result of the one awaited.
    pub fn next(self, event: ConfigEvent) -> (next: (ConfigTask, ConfigAction))
        requires
            self !is Replied,
        ensures
            (next.0@, next.1@) == self@.following(event@),
    {
        match self {
            ConfigTask::ReadLocate(request) => match done_in(event) {
                Ok(_) => (ConfigTask::ReadCreate(request), ConfigAction::CreateDir),
                Err(_) => go_on(request, read_config(None)),
            },
            ConfigTask::ReadCreate(request) => match done_in(event) {
                Ok(_) => (ConfigTask::ReadText(request), ConfigAction::ReadFile),
                Err(_) => go_on(request, read_config(None)),
            },
            ConfigTask::ReadText(request) => match event {
                ConfigEvent::Text(Some(text)) => (
                    ConfigTask::ReadParse(request),
                    ConfigAction::Parse(text),
                ),
                _ => go_on(request, read_config(None)),
            },
            ConfigTask::ReadParse(request) => match event {
                ConfigEvent::Parsed(parsed) => go_on(request, read_config(parsed)),
                _ => go_on(request, read_config(None)),
            },
            ConfigTask::WriteLocate(config) => match done_in(event) {
                Ok(_) => (ConfigTask::WriteCreate(config), ConfigAction::CreateDir),
                Err(message) => reply_saved(Err(LauncherError::CacheDirUnknown(message))),
            },
            ConfigTask::WriteCreate(config) => match done_in(event) {
                Ok(_) => (ConfigTask::WritePrint, ConfigAction::Print(config)),
                Err(message) => reply_saved(Err(LauncherError::CacheDirNotCreated(message))),
            },
            ConfigTask::WritePrint => match printed_in(event) {
                Ok(text) => (ConfigTask::WriteText, ConfigAction::WriteFile(text)),
                Err(message) => reply_saved(Err(LauncherError::Host(message))),
            },
            ConfigTask::WriteText => match done_in(event) {
                Ok(_) => reply_saved(Ok(())),
                Err(message) => reply_saved(Err(LauncherError::Host(message))),
            },
            ConfigTask::Replied => vstd::pervasive::unreached(),
        }
    }
}

/// The surroundings of a request: how the cache directory, its file and the file's format answer.
pub struct Disk {
    /// Whether the cache directory is found.
    pub located: Result<(), Seq<char>>,
    /// Whether the cache directory is there or can be created.
    pub created: Result<(), Seq<char>>,
    /// What the file holds, if it can be read.
    pub file: Option<Seq<char>>,
    /// Whether the file can be written.
    pub writable: Result<(), Seq<char>>,
    /// What the file holds after an attempt to write it that failed.
    pub spoilt: Option<Seq<char>>,
    /// The configuration that a text stands for, if any.
    pub parse: spec_fn(Seq<char>) -> Option<ConfigView>,
    /// The text that stands for a configuration.
    pub print: spec_fn(ConfigView) -> Result<Seq<char>, Seq<char>>,
}

impl Disk {
    /// The result of a step.
    pub open spec fn answer(self, action: ActionView) -> EventView {
        match action {
            ActionView::Locate => EventView::Done(self.located),
            ActionView::CreateDir => EventView::Done(self.created),
            ActionView::ReadFile => EventView::Text(self.file),
            ActionView::Parse(text) => EventView::Parsed((self.parse)(text)),
            ActionView::Print(config) => EventView::Printed((self.print)(config)),
            ActionView::WriteFile(_) => EventView::Done(self.writable),
            ActionView::Reply(_) => EventView::Done(Ok(())),
        }
    }

    /// The surroundings after a step.
    pub open spec fn after(self, action: ActionView) -> Disk {
        match action {
            ActionView::WriteFile(text) => Disk {
                file: if self.writable is Ok {
                    Some(text)
                } else {
                    self.spoilt
                },
                ..self
            },
            _ => self,
        }
    }

    /// The reply to a request that has come this far, and the surroundings it leaves, if it needs
    /// at most `fuel` steps.
    pub open spec fn outcome(self, task: TaskView, action: ActionView, fuel: nat) -> Option<
        (ConfigReplyView, Disk),
    >
        decreases fuel,
    {
        match action {
            ActionView::Reply(reply) => Some((reply, self)),
            _ => if fuel == 0 {
                None
            } else {
                let next = task.following(self.answer(action));
                self.after(action).outcome(next.0, next.1, (fuel - 1) as nat)
            },
        }
    }

    /// The reply to a request and the surroundings it leaves.
    pub open spec fn serve(self, request: RequestView) -> Option<(ConfigReplyView, Disk)> {
        self.outcome(TaskView::ReadLocate(request), ActionView::Locate, 8)
    }

    /// The configuration that is remembered.
    pub open spec fn remembered(self) -> ConfigView {
        match self.file {
            Some(text) if self.located is Ok && self.created is Ok => match (self.parse)(text) {
                Some(config) => config,
                None => ConfigView::initial(),
            },
            _ => ConfigView::initial(),
        }
    }

    /// A request to remember `config` leaves this reply and these surroundings.
    pub open spec fn remember(self, config: ConfigView) -> (Result<(), LauncherErrorView>, Disk) {
        match self.located {
            Err(message) => (Err(LauncherErrorView::CacheDirUnknown(message)), self),
            Ok(_) => match self.created {
                Err(message) => (Err(LauncherErrorView::CacheDirNotCreated(message)), self),
                Ok(_) => match (self.print)(config) {
                    Err(message) => (Err(LauncherErrorView::Host(message)), self),
                    Ok(text) => match self.writable {
                        Err(message) => (
                            Err(LauncherErrorView::Host(message)),
                            Disk { file: self.spoilt, ..self },
                        ),
                        Ok(_) => (Ok(()), Disk { file: Some(text), ..self }),
                    },
                },
            },
        }
    }

    /// Whatever can be printed is parsed back.
    pub open spec fn round_trips(self) -> bool {
        forall|config: ConfigView|
            match #[trigger] (self.print)(config) {
                Ok(text) => (self.parse)(text) == Some(config),
                Err(_) => true,
            }
    }
}

proof fn lemma_write(disk: Disk, config: ConfigView, fuel: nat)
    requires
        fuel >= 4,
    ensures
        disk.outcome(TaskView::WriteLocate(config), ActionView::Locate, fuel) == Some(
            (ConfigReplyView::Saved(disk.remember(config).0), disk.remember(config).1),
        ),
{
    reveal_with_fuel(Disk::outcome, 5);
}

/// Every request is answered: loading gives what is remembered and changes nothing, and saving
/// remembers what was remembered before with the one part replaced.
pub proof fn law_request_is_served(disk: Disk, request: RequestView)
    ensures
        disk.serve(request) == (match request {
            RequestView::LoadAddresses => Some(
                (ConfigReplyView::Addresses(disk.remembered().urls), disk),
            ),
            RequestView::LoadLastUrl => Some(
                (ConfigReplyView::LastUrl(disk.remembered().last_url), disk),
            ),
            RequestView::SaveAddresses(urls) => {
                let kept = disk.remember(with_addresses(disk.remembered(), urls));
                Some((ConfigReplyView::Saved(kept.0), kept.1))
            },
            RequestView::SaveLastUrl(url) => {
                let kept = disk.remember(with_last_url(disk.remembered(), url));
                Some((ConfigReplyView::Saved(kept.0), kept.1))
            },
        }),
{
    reveal_with_fuel(Disk::outcome, 6);
    let config = match request {
        RequestView::SaveAddresses(urls) => with_addresses(disk.remembered(), urls),
        RequestView::SaveLastUrl(url) => with_last_url(disk.remembered(), url),
        _ => ConfigView::initial(),
    };
    lemma_write(disk, config, 4);
    lemma_write(disk, config, 5);
    lemma_write(disk, config, 6);
    lemma_write(disk, config, 7);
}

/// Addresses that were saved are loaded again, by this run or a later one, and the address used
/// last stays what it was.
pub proof fn law_saved_addresses_are_loaded(disk: Disk, urls: Seq<Seq<char>>, later: Disk)
    requires
        disk.round_trips(),
        disk.serve(RequestView::SaveAddresses(urls)) == Some(
            (ConfigReplyView::Saved(Ok(())), later),
        ),
    ensures
        later.serve(RequestView::LoadAddresses) == Some((ConfigReplyView::Addresses(urls), later)),
        later.serve(RequestView::LoadLastUrl) == Some(
            (ConfigReplyView::LastUrl(disk.remembered().last_url), later),
        ),
{
    law_request_is_served(disk, RequestView::SaveAddresses(urls));
    law_request_is_served(later, RequestView::LoadAddresses);
    law_request_is_served(later, RequestView::LoadLastUrl);
    let config = with_addresses(disk.remembered(), urls);
    assert((disk.print)(config) is Ok);
}

/// The address used last is loaded again once it was saved, by this run or a later one, and the
/// addresses in the dropdown stay what they were.
pub proof fn law_saved_last_url_is_loaded(disk: Disk, url: Seq<char>, later: Disk)
    requires
        disk.round_trips(),
        disk.serve(RequestView::SaveLastUrl(url)) == Some(
            (ConfigReplyView::Saved(Ok(())), later),
        ),
    ensures
        later.serve(RequestView::LoadLastUrl) == Some((ConfigReplyView::LastUrl(Some(url)), later)),
        later.serve(RequestView::LoadAddresses) == Some(
            (ConfigReplyView::Addresses(disk.remembered().urls), later),
        ),
{
    law_request_is_served(disk, RequestView::SaveLastUrl(url));
    law_request_is_served(later, RequestView::LoadAddresses);
    law_request_is_served(later, RequestView::LoadLastUrl);
    let config = with_last_url(disk.remembered(), url);
    assert((disk.print)(config) is Ok);
}

impl Disk {
    /// At a later moment, in this run or a later one, the file still holds what it holds now, in the
    /// same format. The rest of the surroundings may have changed.
    pub open spec fn lasts_until(self, later: Disk) -> bool {
        later.file == self.file && later.parse == self.parse && later.print == self.print
    }
}

/// The requests were served one after another, each in the surroundings given with it, from those
/// of `start` to those of `end`, and nothing else changed the file meanwhile.
pub open spec fn served_between(start: Disk, turns: Seq<(Disk, RequestView)>, end: Disk) -> bool
    decreases turns.len(),
{
    if turns.len() == 0 {
        start.lasts_until(end)
    } else {
        let (disk, request) = turns.last();
        &&& served_between(start, turns.drop_last(), disk)
        &&& disk.serve(request) matches Some((_, after)) && after.lasts_until(end)
    }
}

/// The request was not one to save something, or what it was to save was saved.
pub open spec fn went_well(turn: (Disk, RequestView)) -> bool {
    match turn.0.serve(turn.1) {
        Some((ConfigReplyView::Saved(result), _)) => result is Ok,
        _ => true,
    }
}

/// The file holds a configuration.
pub open spec fn file_holds(disk: Disk, config: ConfigView) -> bool {
    disk.file matches Some(text) && (disk.parse)(text) == Some(config)
}

/// What a request leaves of the configuration in the file, if it went well.
pub open spec fn config_after(config: ConfigView, request: RequestView) -> ConfigView {
    match request {
        RequestView::SaveAddresses(urls) => with_addresses(config, urls),
        RequestView::SaveLastUrl(url) => with_last_url(config, url),
        _ => config,
    }
}

/// What requests leave of the configuration in the file, if all went well.
pub open spec fn config_after_all(config: ConfigView, turns: Seq<(Disk, RequestView)>) -> ConfigView
    decreases turns.len(),
{
    if turns.len() == 0 {
        config
    } else {
        config_after(config_after_all(config, turns.drop_last()), turns.last().1)
    }
}

/// Over any requests that went well, in any number of runs, the file holds the configuration that it
/// held, with each part replaced by what was saved of it last.
pub proof fn law_file_follows_requests(
    start: Disk,
    config: ConfigView,
    turns: Seq<(Disk, RequestView)>,
    end: Disk,
)
    requires
        start.round_trips(),
        file_holds(start, config),
        served_between(start, turns, end),
        forall|i: int| 0 <= i < turns.len() ==> went_well(#[trigger] turns[i]),
    ensures
        end.round_trips(),
        file_holds(end, config_after_all(config, turns)),
    decreases turns.len(),
{
    if turns.len() > 0 {
        let (disk, request) = turns.last();
        let rest = turns.drop_last();
        assert forall|i: int| 0 <= i < rest.len() implies went_well(#[trigger] rest[i]) by {
            assert(rest[i] == turns[i]);
        }
        law_file_follows_requests(start, config, rest, disk);
        assert(went_well(turns[turns.len() - 1]));
        law_request_is_served(disk, request);
        let changed = config_after(config_after_all(config, rest), request);
        assert((disk.print)(changed) matches Ok(text) ==> (disk.parse)(text) == Some(changed));
    }
}

/// A request to save that went well leaves the file holding what was remembered before, with what
/// was saved in place.
proof fn lemma_saved_file(disk: Disk, request: RequestView, later: Disk)
    requires
        disk.round_trips(),
        disk.serve(request) == Some((ConfigReplyView::Saved(Ok(())), later)),
    ensures
        later.round_trips(),
        file_holds(later, config_after(disk.remembered(), request)),
{
    law_request_is_served(disk, request);
    let changed = config_after(disk.remembered(), request);
    assert((disk.print)(changed) is Ok);
}

proof fn lemma_kept_parts(config: ConfigView, turns: Seq<(Disk, RequestView)>)
    ensures
        (forall|i: int| 0 <= i < turns.len() ==> (#[trigger] turns[i]).1 !is SaveAddresses)
            ==> config_after_all(config, turns).urls == config.urls,
        (forall|i: int| 0 <= i < turns.len() ==> (#[trigger] turns[i]).1 !is SaveLastUrl)
            ==> config_after_all(config, turns).last_url == config.last_url,
    decreases turns.len(),
{
    if turns.len() > 0 {
        let rest = turns.drop_last();
        lemma_kept_parts(config, rest);
        assert(forall|i: int| 0 <= i < rest.len() ==> #[trigger] rest[i] == turns[i]);
        assert(turns[turns.len() - 1] == turns.last());
    }
}

/// Addresses that were saved are loaded again, the same and in the same order, after any number of
/// requests that went well and saved no other addresses, in this run or later ones.
pub proof fn law_addresses_outlast_requests(
    disk: Disk,
    urls: Seq<Seq<char>>,
    later: Disk,
    turns: Seq<(Disk, RequestView)>,
    end: Disk,
)
    requires
        disk.round_trips(),
        disk.serve(RequestView::SaveAddresses(urls)) == Some(
            (ConfigReplyView::Saved(Ok(())), later),
        ),
        served_between(later, turns, end),
        forall|i: int|
            0 <= i < turns.len() ==> went_well(#[trigger] turns[i]) && turns[i].1 !is SaveAddresses,
        end.located is Ok,
        end.created is Ok,
    ensures
        end.serve(RequestView::LoadAddresses) == Some((ConfigReplyView::Addresses(urls), end)),
{
    let saved = RequestView::SaveAddresses(urls);
    let config = config_after(disk.remembered(), saved);
    lemma_saved_file(disk, saved, later);
    law_file_follows_requests(later, config, turns, end);
    lemma_kept_parts(config, turns);
    law_request_is_served(end, RequestView::LoadAddresses);
}

/// The address used last is loaded again, exactly as it was saved, after any number of requests that
/// went well and saved no other one, in this run or later ones.
pub proof fn law_last_url_outlasts_requests(
    disk: Disk,
    url: Seq<char>,
    later: Disk,
    turns: Seq<(Disk, RequestView)>,
    end: Disk,
)
    requires
        disk.round_trips(),
        disk.serve(RequestView::SaveLastUrl(url)) == Some((ConfigReplyView::Saved(Ok(())), later)),
        served_between(later, turns, end),
        forall|i: int|
            0 <= i < turns.len() ==> went_well(#[trigger] turns[i]) && turns[i].1 !is SaveLastUrl,
        end.located is Ok,
        end.created is Ok,
    ensures
        end.serve(RequestView::LoadLastUrl) == Some((ConfigReplyView::LastUrl(Some(url)), end)),
{
    let saved = RequestView::SaveLastUrl(url);
    let config = config_after(disk.remembered(), saved);
    lemma_saved_file(disk, saved, later);
    law_file_follows_requests(later, config, turns, end);
    lemma_kept_parts(config, turns);
    law_request_is_served(end, RequestView::LoadLastUrl);
}

/// Loading gives what the file holds: where the cache directory is there and the file can be read
/// and parsed, the part that is asked for as it stands there, and nothing at all elsewhere. It
/// changes nothing.
pub proof fn law_loading_gives_what_the_file_holds(disk: Disk)
    ensures
        ({
            let addresses = disk.serve(RequestView::LoadAddresses);
            let last = disk.serve(RequestView::LoadLastUrl);
            let there = disk.located is Ok && disk.created is Ok;
            &&& there ==> (disk.file matches Some(text) ==> ((disk.parse)(text) matches Some(config)
                ==> addresses == Some((ConfigReplyView::Addresses(config.urls), disk)) && last
                == Some((ConfigReplyView::LastUrl(config.last_url), disk))))
            &&& !there || disk.file is None || (disk.parse)(disk.file->0) is None ==> addresses
                == Some((ConfigReplyView::Addresses(Seq::empty()), disk)) && last == Some(
                (ConfigReplyView::LastUrl(None), disk),
            )
        }),
{
    law_request_is_served(disk, RequestView::LoadAddresses);
    law_request_is_served(disk, RequestView::LoadLastUrl);
}

/// What saving one part writes: the other part, as loading it gives it at that moment, goes into
/// the file again beside the new one. Every step that fails has its own error with the reason given,
/// and where no step fails the file holds exactly what was printed. Nothing else is changed.
pub proof fn law_saving_replaces_one_part(
    disk: Disk,
    urls: Seq<Seq<char>>,
    url: Seq<char>,
    kept_urls: Seq<Seq<char>>,
    kept_last: Option<Seq<char>>,
)
    requires
        disk.serve(RequestView::LoadAddresses) == Some(
            (ConfigReplyView::Addresses(kept_urls), disk),
        ),
        disk.serve(RequestView::LoadLastUrl) == Some((ConfigReplyView::LastUrl(kept_last), disk)),
    ensures
        disk.serve(RequestView::SaveAddresses(urls)) == write_outcome(
            disk,
            ConfigView { urls, last_url: kept_last },
        ),
        disk.serve(RequestView::SaveLastUrl(url)) == write_outcome(
            disk,
            ConfigView { urls: kept_urls, last_url: Some(url) },
        ),
{
    law_request_is_served(disk, RequestView::LoadAddresses);
    law_request_is_served(disk, RequestView::LoadLastUrl);
    law_request_is_served(disk, RequestView::SaveAddresses(urls));
    law_request_is_served(disk, RequestView::SaveLastUrl(url));
    let config = disk.remembered();
    assert(with_addresses(config, urls) == (ConfigView { urls, last_url: kept_last }));
    assert(with_last_url(config, url) == (ConfigView { urls: kept_urls, last_url: Some(url) }));
}

/// The reply to a request that writes a configuration, and the surroundings that it leaves.
pub open spec fn write_outcome(disk: Disk, config: ConfigView) -> Option<(ConfigReplyView, Disk)> {
    let failed = |error: LauncherErrorView, file: Option<Seq<char>>|
        Some((ConfigReplyView::Saved(Err(error)), Disk { file, ..disk }));
    if let Err(reason) = disk.located {
        failed(LauncherErrorView::CacheDirUnknown(reason), disk.file)
    } else if let Err(reason) = disk.created {
        failed(LauncherErrorView::CacheDirNotCreated(reason), disk.file)
    } else if let Err(reason) = (disk.print)(config) {
        failed(LauncherErrorView::Host(reason), disk.file)
    } else if let Err(reason) = disk.writable {
        failed(LauncherErrorView::Host(reason), disk.spoilt)
    } else {
        Some((ConfigReplyView::Saved(Ok(())), Disk { file: Some((disk.print)(config)->Ok_0), ..disk }))
    }
}

/// Changing one part of a configuration leaves the other as it was.
pub proof fn law_parts_are_independent(config: ConfigView, urls: Seq<Seq<char>>, url: Seq<char>)
    ensures
        with_addresses(config, urls).urls == urls,
        with_addresses(config, urls).last_url == config.last_url,
        with_last_url(config, url).urls == config.urls,
        with_last_url(config, url).last_url == Some(url),
        ConfigView::initial().urls.len() == 0,
        ConfigView::initial().last_url is None,
{
}

/// What loads touches nothing: it never prints or writes. What saves writes only what it had
/// printed. A result of the wrong kind is a failure.
pub proof fn law_only_saving_writes(task: TaskView, event: EventView)
    requires
        task !is Replied,
    ensures
        task.following(event).1 matches ActionView::WriteFile(text) ==> task is WritePrint && event
            == EventView::Printed(Ok(text)),
        task.following(event).1 matches ActionView::Print(config) ==> task
            == TaskView::WriteCreate(config),
        task.following(event).1 matches ActionView::Parse(text) ==> task is ReadText && event
            == EventView::Text(Some(text)),
        task.following(event).1 is Reply <==> task.following(event).0 is Replied,
        task.following(event).1 == ActionView::Reply(ConfigReplyView::Saved(Ok(()))) ==> task
            is WriteText && (event matches EventView::Done(result) && result is Ok),
{
}

} // verus!
