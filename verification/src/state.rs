//! The launcher's state and its commands: starting, watching and restarting the web service, and
//! choosing the page that is shown.
use crate::address::{check_parsed, declared_scheme, is_web_scheme, normalize_url, normalized,
    parse_url, parsed_view, refusal, url_scheme, DSH_URL};
use crate::command::{build_piped_command, piped_service_command, Platform};
use crate::effect::{effect_views, lemma_effect_views_push, Effect, EffectView, Notice, NoticeView,
    Pipe};
use crate::error::{LauncherError, LauncherErrorView};
use crate::pages::{ensure_outcome, ensure_parsed, has_label, hide_all_webviews, hide_pages,
    outcome_view, page_label, webview_label_for, Host, HostView};
use crate::text::{contains, occurs_in};
use vstd::prelude::*;
use vstd::string::*;

verus! {

broadcast use lemma_effect_views_push;

/// What the web service writes when it is about to serve.
pub const READY_MARKER: &'static str = "127.0.0.1:3080";

/// How long to wait, in milliseconds, between the ready marker and the opening of the page.
pub const READY_NAV_DELAY_MS: u64 = 700;

/// How often, in milliseconds, the child process is checked.
pub const MONITOR_INTERVAL_MS: u64 = 400;

/// What the launcher remembers while it runs.
#[derive(Debug, PartialEq, Eq)]
pub struct AppState {
    /// The process identifier of the running web service.
    pub child: Option<u32>,
    /// The lock on `child` was poisoned.
    pub child_poisoned: bool,
    /// The ready marker was seen since the web service was last started or restarted.
    pub ready: bool,
    /// The selected address.
    pub target_url: String,
    /// The lock on `target_url` was poisoned.
    pub target_poisoned: bool,
}

/// The contents of an [`AppState`].
pub struct AppStateView {
    pub child: Option<u32>,
    pub child_poisoned: bool,
    pub ready: bool,
    pub target: Seq<char>,
    pub target_poisoned: bool,
}

impl View for AppState {
    type V = AppStateView;

    open spec fn view(&self) -> AppStateView {
        AppStateView {
            child: self.child,
            child_poisoned: self.child_poisoned,
            ready: self.ready,
            target: self.target_url@,
            target_poisoned: self.target_poisoned,
        }
    }
}

impl Default for AppState {
    fn default() -> (state: Self)
        ensures
            state@ == AppStateView::initial(),
    {
        AppState {
            child: None,
            child_poisoned: false,
            ready: false,
            target_url: DSH_URL.to_owned(),
            target_poisoned: false,
        }
    }
}

/// The effects of a command, and its answer to the top bar.
#[derive(Debug, PartialEq, Eq)]
pub struct Reply<T> {
    pub effects: Vec<Effect>,
    pub result: Result<T, LauncherError>,
}

/// The contents of a [`Reply`].
#[verifier::ext_equal]
pub struct ReplyView<T> {
    pub effects: Seq<EffectView>,
    pub result: Result<T, LauncherErrorView>,
}

impl<T> View for Reply<T> {
    type V = ReplyView<T>;

    open spec fn view(&self) -> ReplyView<T> {
        ReplyView {
            effects: effect_views(self.effects@),
            result: match self.result {
                Ok(value) => Ok(value),
                Err(error) => Err(error@),
            },
        }
    }
}

/// What came of starting the child process.
#[derive(Debug, PartialEq, Eq)]
pub enum SpawnReply {
    /// It could not be started; holds the system's reason.
    Failed(String),
    /// It runs; tells which of its output streams can be read.
    Started { pid: u32, stdout: bool, stderr: bool },
}

/// The contents of a [`SpawnReply`].
pub enum SpawnReplyView {
    Failed(Seq<char>),
    Started { pid: u32, stdout: bool, stderr: bool },
}

impl View for SpawnReply {
    type V = SpawnReplyView;

    open spec fn view(&self) -> SpawnReplyView {
        match self {
            SpawnReply::Failed(reason) => SpawnReplyView::Failed(reason@),
            SpawnReply::Started { pid, stdout, stderr } => SpawnReplyView::Started {
                pid: *pid,
                stdout: *stdout,
                stderr: *stderr,
            },
        }
    }
}

/// What reading the next line of the child's output gave.
#[derive(Debug, PartialEq, Eq)]
pub enum LineEvent {
    Line(String),
    Failed,
}

/// What a check on the child process gave.
#[derive(Clone, Copy, Debug, PartialEq, Eq, Structural)]
pub enum WaitReply {
    /// It ended, with its exit code where it has one.
    Exited(Option<i32>),
    Running,
    /// The check failed.
    Failed,
}

/// What the watch on the child process does next.
#[derive(Clone, Copy, Debug, PartialEq, Eq, Structural)]
pub enum Watch {
    /// Check again later.
    Continue,
    /// Stop without a word.
    Stop,
    /// Report the end of the child, with its exit code where it has one, and stop.
    Report(Option<i32>),
}

impl AppStateView {
    /// Nothing runs, and the local web service is selected.
    pub open spec fn initial() -> AppStateView {
        AppStateView {
            child: None,
            child_poisoned: false,
            ready: false,
            target: DSH_URL@,
            target_poisoned: false,
        }
    }

    /// The address whose page is opened when the web service is ready.
    pub open spec fn page_target(self) -> Seq<char> {
        if self.target_poisoned {
            DSH_URL@
        } else {
            self.target
        }
    }

    /// What starting the web service comes to.
    pub open spec fn start(self, platform: Platform) -> Result<Seq<EffectView>, LauncherErrorView> {
        if self.child_poisoned {
            Err(LauncherErrorView::StateLock)
        } else if self.child is Some {
            Err(LauncherErrorView::AlreadyRunning)
        } else {
            Ok(seq![EffectView::Launch(piped_service_command(platform))])
        }
    }

    /// The answer once the child process was launched.
    pub open spec fn spawn_result(self, reply: SpawnReplyView) -> Result<(), LauncherErrorView> {
        match reply {
            SpawnReplyView::Failed(reason) => Err(LauncherErrorView::SpawnFailed(reason)),
            SpawnReplyView::Started { stdout, stderr, .. } => if !stdout {
                Err(LauncherErrorView::NoStdout)
            } else if !stderr {
                Err(LauncherErrorView::NoStderr)
            } else if self.child_poisoned {
                Err(LauncherErrorView::StateLock)
            } else {
                Ok(())
            },
        }
    }

    /// What follows the launch of the child process.
    pub open spec fn spawn_effects(self, platform: Platform, reply: SpawnReplyView) -> Seq<EffectView> {
        match reply {
            SpawnReplyView::Failed(_) => Seq::empty(),
            SpawnReplyView::Started { pid, .. } => job_effects(platform, pid) + (
            if self.spawn_result(reply) is Ok {
                seq![
                    EffectView::Monitor,
                    EffectView::Read(Pipe::Stdout),
                    EffectView::Read(Pipe::Stderr),
                ]
            } else {
                Seq::empty()
            }),
        }
    }

    /// The state once the child process was launched: one that was taken over is remembered, and its
    /// readiness is awaited anew.
    pub open spec fn after_spawn(self, reply: SpawnReplyView) -> AppStateView {
        match reply {
            SpawnReplyView::Started { pid, .. } if self.spawn_result(reply) is Ok => AppStateView {
                child: Some(pid),
                ready: false,
                ..self
            },
            _ => self,
        }
    }

    /// What asking for a restart comes to.
    pub open spec fn restart(self) -> Result<Seq<EffectView>, LauncherErrorView> {
        if self.child_poisoned {
            Err(LauncherErrorView::StateLock)
        } else {
            match self.child {
                Some(pid) => Ok(seq![EffectView::Terminate(pid)]),
                None => Err(LauncherErrorView::NotRunning),
            }
        }
    }

    /// The state once a restart was asked for.
    pub open spec fn after_restart(self) -> AppStateView {
        if self.restart() is Ok {
            AppStateView { child: None, ..self }
        } else {
            self
        }
    }

    /// What follows the end of the old child process in a restart.
    pub open spec fn relaunch_effects(self, host: HostView, platform: Platform) -> Seq<EffectView> {
        let label = page_label(self.page_target());
        hide_pages(host.labels) + (if host.labels.contains(label) {
            seq![EffectView::Close(label)]
        } else {
            Seq::empty()
        }) + seq![EffectView::Launch(piped_service_command(platform))]
    }

    /// The state once the old child process of a restart has ended.
    pub open spec fn after_relaunch(self) -> AppStateView {
        AppStateView { ready: false, ..self }
    }

    /// What forcing the selected page to load again comes to.
    pub open spec fn reload(self, host: HostView) -> Result<Seq<EffectView>, LauncherErrorView> {
        let label = page_label(self.target);
        if self.target_poisoned {
            Err(LauncherErrorView::StateLock)
        } else if !host.labels.contains(label) {
            Err(LauncherErrorView::PageNotLoaded)
        } else {
            Ok(seq![EffectView::Hide(label), EffectView::Reload(label)])
        }
    }

    /// Why an address is not selected, given what the URL parser makes of it.
    pub open spec fn select_refusal(self, parsed: Result<Seq<char>, Seq<char>>) -> Option<
        LauncherErrorView,
    > {
        match refusal(parsed) {
            Some(error) => Some(error),
            None => if self.target_poisoned {
                Some(LauncherErrorView::StateLock)
            } else {
                None
            },
        }
    }

    /// The state once an address was selected, if it was accepted.
    pub open spec fn after_select(
        self,
        address: Seq<char>,
        parsed: Result<Seq<char>, Seq<char>>,
    ) -> AppStateView {
        if self.select_refusal(parsed) is None {
            AppStateView { target: address, ..self }
        } else {
            self
        }
    }

    /// What opening an address comes to, given what the URL parser makes of it.
    pub open spec fn open(
        self,
        address: Seq<char>,
        host: HostView,
        parsed: Result<Seq<char>, Seq<char>>,
    ) -> ReplyView<bool> {
        let label = page_label(address);
        match self.select_refusal(parsed) {
            Some(error) => ReplyView { effects: Seq::empty(), result: Err(error) },
            None => if host.labels.contains(label) {
                ReplyView {
                    effects: hide_pages(host.labels) + seq![
                        EffectView::Show(label),
                        EffectView::Focus(label),
                        EffectView::Emit(NoticeView::PageShown),
                    ],
                    result: Ok(true),
                }
            } else {
                match ensure_outcome(address, host, parsed) {
                    Ok(effects) => ReplyView {
                        effects: hide_pages(host.labels) + effects,
                        result: Ok(false),
                    },
                    Err(error) => ReplyView {
                        effects: hide_pages(host.labels),
                        result: Err(error),
                    },
                }
            },
        }
    }

    /// What opening the page for the selected address comes to; failures are passed over.
    pub open spec fn open_target(self, host: HostView, parsed: Result<Seq<char>, Seq<char>>) -> Seq<
        EffectView,
    > {
        match ensure_outcome(self.page_target(), host, parsed) {
            Ok(effects) => effects,
            Err(_) => Seq::empty(),
        }
    }

    /// A line of output makes the web service ready.
    pub open spec fn becomes_ready(self, line: Seq<char>) -> bool {
        occurs_in(READY_MARKER@, line) && !self.ready
    }

    /// What follows a line of output.
    pub open spec fn line_effects(self, line: Seq<char>) -> Seq<EffectView> {
        if self.becomes_ready(line) {
            seq![
                EffectView::Emit(NoticeView::Output(line)),
                EffectView::Emit(NoticeView::Ready),
                EffectView::OpenTargetAfter(READY_NAV_DELAY_MS),
            ]
        } else {
            seq![EffectView::Emit(NoticeView::Output(line))]
        }
    }

    /// The state after a line of output.
    pub open spec fn after_line(self, line: Seq<char>) -> AppStateView {
        AppStateView { ready: self.ready || occurs_in(READY_MARKER@, line), ..self }
    }

    /// What the watch on the child process does, given what a check on it gives.
    pub open spec fn watch(self, reply: WaitReply) -> Watch {
        if self.child_poisoned || self.child is None {
            Watch::Stop
        } else {
            match reply {
                WaitReply::Exited(code) => Watch::Report(code),
                WaitReply::Running => Watch::Continue,
                WaitReply::Failed => Watch::Report(None),
            }
        }
    }

    /// The state after a check on the child process.
    pub open spec fn after_watch(self, reply: WaitReply) -> AppStateView {
        if self.watch(reply) is Report {
            AppStateView { child: None, ..self }
        } else {
            self
        }
    }

    /// What ends the child process when the launcher itself ends.
    pub open spec fn exit_effects(self) -> Seq<EffectView> {
        match self.child {
            Some(pid) => seq![EffectView::Terminate(pid)],
            None => Seq::empty(),
        }
    }
}

/// Tying a child process to the launcher's lifetime, where the platform can.
pub open spec fn job_effects(platform: Platform, pid: u32) -> Seq<EffectView> {
    match platform {
        Platform::Windows => seq![EffectView::AssignToJob(pid)],
        Platform::Unix => Seq::empty(),
    }
}

/// What follows the end of the child process.
pub open spec fn end_effects(code: Option<i32>, host: HostView) -> Seq<EffectView> {
    seq![EffectView::Emit(NoticeView::Exit(code))] + hide_pages(host.labels)
}

fn no_effects() -> (effects: Vec<Effect>)
    ensures
        effect_views(effects@) == Seq::<EffectView>::empty(),
{
    let effects: Vec<Effect> = Vec::new();
    assert(effect_views(effects@) =~= Seq::<EffectView>::empty());
    effects
}

fn one_effect(effect: Effect) -> (effects: Vec<Effect>)
    ensures
        effect_views(effects@) == seq![effect@],
{
    let mut effects: Vec<Effect> = Vec::new();
    effects.push(effect);
    assert(effect_views(effects@) =~= seq![effect@]);
    effects
}

/// `first` followed by `second`.
fn both(first: Vec<Effect>, second: Vec<Effect>) -> (effects: Vec<Effect>)
    ensures
        effect_views(effects@) == effect_views(first@) + effect_views(second@),
{
    let mut effects: Vec<Effect> = first;
    let mut rest: Vec<Effect> = second;
    effects.append(&mut rest);
    assert(effect_views(effects@) =~= effect_views(first@) + effect_views(second@));
    effects
}

impl AppState {
    /// Starts the web service unless it runs. What came of the launch goes to
    /// [`AppState::spawn_dsh_child`].
    pub fn start_dsh(&self, platform: Platform) -> (outcome: Result<Vec<Effect>, LauncherError>)
        ensures
            outcome_view(outcome) == self@.start(platform),
    {
        if self.child_poisoned {
            return Err(LauncherError::StateLock);
        }
        if self.child.is_some() {
            return Err(LauncherError::AlreadyRunning);
        }
        Ok(one_effect(Effect::Launch(build_piped_command(platform))))
    }

    /// Takes over a child process that was just launched: remembers it, watches for its end and
    /// reads its output. Its ready marker is reported, whatever an earlier child process wrote. A
    /// launch that failed changes nothing.
    pub fn spawn_dsh_child(&mut self, platform: Platform, reply: SpawnReply) -> (answer: Reply<()>)
        ensures
            final(self)@ == old(self)@.after_spawn(reply@),
            answer@ == (ReplyView {
                effects: old(self)@.spawn_effects(platform, reply@),
                result: old(self)@.spawn_result(reply@),
            }),
    {
        match reply {
            SpawnReply::Failed(reason) => Reply {
                effects: no_effects(),
                result: Err(LauncherError::SpawnFailed(reason)),
            },
            SpawnReply::Started { pid, stdout, stderr } => {
                let mut effects: Vec<Effect> = match platform {
                    Platform::Windows => one_effect(Effect::AssignToJob(pid)),
                    Platform::Unix => no_effects(),
                };
                assert(effect_views(effects@) =~= job_effects(platform, pid));
                assert(job_effects(platform, pid) + Seq::<EffectView>::empty() =~= job_effects(
                    platform,
                    pid,
                ));
                if !stdout {
                    return Reply { effects, result: Err(LauncherError::NoStdout) };
                }
                if !stderr {
                    return Reply { effects, result: Err(LauncherError::NoStderr) };
                }
                if self.child_poisoned {
                    return Reply { effects, result: Err(LauncherError::StateLock) };
                }
                self.child = Some(pid);
                self.ready = false;
                effects.push(Effect::Monitor);
                effects.push(Effect::Read(Pipe::Stdout));
                effects.push(Effect::Read(Pipe::Stderr));
                assert(effect_views(effects@) =~= job_effects(platform, pid) + seq![
                    EffectView::Monitor,
                    EffectView::Read(Pipe::Stdout),
                    EffectView::Read(Pipe::Stderr),
                ]);
                Reply { effects, result: Ok(()) }
            },
        }
    }

    /// Begins a restart by ending the running child process. Forgetting it here keeps the watch
    /// on it silent. Once it has ended, [`AppState::child_terminated`] goes on.
    pub fn restart_dsh(&mut self) -> (outcome: Result<Vec<Effect>, LauncherError>)
        ensures
            outcome_view(outcome) == old(self)@.restart(),
            final(self)@ == old(self)@.after_restart(),
    {
        if self.child_poisoned {
            return Err(LauncherError::StateLock);
        }
        match self.child {
            Some(pid) => {
                self.child = None;
                Ok(one_effect(Effect::Terminate(pid)))
            },
            None => Err(LauncherError::NotRunning),
        }
    }

    /// Goes on with a restart: uncovers the terminal, drops the selected page so that it opens
    /// afresh, and launches the web service again. Other pages are kept alive.
    pub fn child_terminated(&mut self, host: &Host, platform: Platform) -> (effects: Vec<Effect>)
        ensures
            effect_views(effects@) == old(self)@.relaunch_effects(host@, platform),
            final(self)@ == old(self)@.after_relaunch(),
    {
        self.ready = false;
        let label: String = self.target_label();
        let hidden: Vec<Effect> = hide_all_webviews(&host.labels);
        let closed: Vec<Effect> = if has_label(&host.labels, &label) {
            one_effect(Effect::Close(label))
        } else {
            no_effects()
        };
        let launched: Vec<Effect> = one_effect(Effect::Launch(build_piped_command(platform)));
        both(both(hidden, closed), launched)
    }

    /// The address whose page is opened when the web service is ready.
    fn target_or_default(&self) -> (url: String)
        ensures
            url@ == self@.page_target(),
    {
        if self.target_poisoned {
            DSH_URL.to_owned()
        } else {
            self.target_url.clone()
        }
    }

    fn target_label(&self) -> (label: String)
        ensures
            label@ == page_label(self@.page_target()),
    {
        let url: String = self.target_or_default();
        webview_label_for(url.as_str())
    }

    /// Makes the selected page load again. It is hidden meanwhile, so that the loading overlay
    /// is seen.
    pub fn force_reload(&self, host: &Host) -> (outcome: Result<Vec<Effect>, LauncherError>)
        ensures
            outcome_view(outcome) == self@.reload(host@),
    {
        if self.target_poisoned {
            return Err(LauncherError::StateLock);
        }
        let label: String = webview_label_for(self.target_url.as_str());
        if !has_label(&host.labels, &label) {
            return Err(LauncherError::PageNotLoaded);
        }
        let mut effects: Vec<Effect> = one_effect(Effect::Hide(label.clone()));
        effects.push(Effect::Reload(label));
        assert(effect_views(effects@) =~= seq![
            EffectView::Hide(page_label(self@.target)),
            EffectView::Reload(page_label(self@.target)),
        ]);
        Ok(effects)
    }

    /// Selects an address, given what the URL parser made of it.
    pub fn select_parsed(&mut self, address: String, parsed: Result<String, String>) -> (result:
        Result<(), LauncherError>)
        ensures
            final(self)@ == old(self)@.after_select(address@, parsed_view(parsed)),
            match result {
                Ok(_) => old(self)@.select_refusal(parsed_view(parsed)) is None,
                Err(error) => old(self)@.select_refusal(parsed_view(parsed)) == Some(error@),
            },
    {
        match check_parsed(parsed) {
            Err(error) => Err(error),
            Ok(_) => {
                if self.target_poisoned {
                    return Err(LauncherError::StateLock);
                }
                self.target_url = address;
                Ok(())
            },
        }
    }

    /// Checks what the user typed and selects it in its navigable form.
    pub fn resolve_target(&mut self, url: &str) -> (result: Result<(), LauncherError>)
        ensures
            final(self)@ == old(self)@.after_select(
                normalized(url@),
                url_scheme(normalized(url@)),
            ),
            match result {
                Ok(_) => old(self)@.select_refusal(url_scheme(normalized(url@))) is None,
                Err(error) => old(self)@.select_refusal(url_scheme(normalized(url@))) == Some(
                    error@,
                ),
            },
            result is Ok <==> (url_scheme(normalized(url@)) matches Ok(scheme) && is_web_scheme(
                scheme,
            )) && !old(self).target_poisoned,
            (result matches Err(error) && error is UnsupportedScheme) <==> url_scheme(
                normalized(url@),
            ) is Ok && !is_web_scheme(declared_scheme(normalized(url@))),
    {
        let address: String = normalize_url(url);
        let parsed: Result<String, String> = parse_url(address.as_str());
        proof {
            crate::address::law_normalized_has_scheme(url@);
        }
        self.select_parsed(address, parsed)
    }

    /// Remembers the address to open once the web service is ready.
    pub fn set_dsh_url(&mut self, url: &str) -> (result: Result<(), LauncherError>)
        ensures
            final(self)@ == old(self)@.after_select(
                normalized(url@),
                url_scheme(normalized(url@)),
            ),
            match result {
                Ok(_) => old(self)@.select_refusal(url_scheme(normalized(url@))) is None,
                Err(error) => old(self)@.select_refusal(url_scheme(normalized(url@))) == Some(
                    error@,
                ),
            },
            result is Ok <==> (url_scheme(normalized(url@)) matches Ok(scheme) && is_web_scheme(
                scheme,
            )) && !old(self).target_poisoned,
            (result matches Err(error) && error is UnsupportedScheme) <==> url_scheme(
                normalized(url@),
            ) is Ok && !is_web_scheme(declared_scheme(normalized(url@))),
    {
        self.resolve_target(url)
    }

    /// Selects an address and opens its page now, given what the URL parser made of it.
    pub fn open_parsed(&mut self, address: String, host: &Host, parsed: Result<String, String>) -> (
    reply: Reply<bool>)
        ensures
            final(self)@ == old(self)@.after_select(address@, parsed_view(parsed)),
            reply@ == old(self)@.open(address@, host@, parsed_view(parsed)),
    {
        let label: String = webview_label_for(address.as_str());
        let ensured: Result<Vec<Effect>, LauncherError> = ensure_parsed(
            address.as_str(),
            host,
            &parsed,
        );
        let selected: Result<(), LauncherError> = self.select_parsed(address, parsed);
        if let Err(error) = selected {
            return Reply { effects: no_effects(), result: Err(error) };
        }
        let mut effects: Vec<Effect> = hide_all_webviews(&host.labels);
        if has_label(&host.labels, &label) {
            effects.push(Effect::Show(label.clone()));
            effects.push(Effect::Focus(label));
            effects.push(Effect::Emit(Notice::PageShown));
            assert(effect_views(effects@) =~= hide_pages(host@.labels) + seq![
                EffectView::Show(page_label(address@)),
                EffectView::Focus(page_label(address@)),
                EffectView::Emit(NoticeView::PageShown),
            ]);
            return Reply { effects, result: Ok(true) };
        }
        match ensured {
            Ok(created) => Reply { effects: both(effects, created), result: Ok(false) },
            Err(error) => Reply { effects, result: Err(error) },
        }
    }

    /// Selects what the user typed and opens its page now, creating the page if there is none.
    /// Answers whether the page was there already.
    pub fn open_dsh_url(&mut self, url: &str, host: &Host) -> (reply: Reply<bool>)
        ensures
            final(self)@ == old(self)@.after_select(
                normalized(url@),
                url_scheme(normalized(url@)),
            ),
            reply@ == old(self)@.open(normalized(url@), host@, url_scheme(normalized(url@))),
            (reply.result matches Err(error) && error is UnsupportedScheme) <==> url_scheme(
                normalized(url@),
            ) is Ok && !is_web_scheme(declared_scheme(normalized(url@))),
    {
        let address: String = normalize_url(url);
        let parsed: Result<String, String> = parse_url(address.as_str());
        proof {
            crate::address::law_normalized_has_scheme(url@);
        }
        self.open_parsed(address, host, parsed)
    }

    /// Opens the page for the selected address, given what the URL parser made of that address.
    pub fn open_target_parsed(&self, host: &Host, parsed: &Result<String, String>) -> (effects: Vec<
        Effect,
    >)
        ensures
            effect_views(effects@) == self@.open_target(host@, parsed_view(*parsed)),
    {
        let url: String = self.target_or_default();
        match ensure_parsed(url.as_str(), host, parsed) {
            Ok(effects) => effects,
            Err(_) => no_effects(),
        }
    }

    /// Opens the page for the selected address; called when the web service has become ready.
    pub fn spawn_target_webview(&self, host: &Host) -> (effects: Vec<Effect>)
        ensures
            effect_views(effects@) == self@.open_target(host@, url_scheme(self@.page_target())),
    {
        let url: String = self.target_or_default();
        let parsed: Result<String, String> = parse_url(url.as_str());
        self.open_target_parsed(host, &parsed)
    }

    /// Forwards a line of the child's output, and reports readiness at the first ready marker.
    /// Returns whether to go on reading.
    pub fn stream_reader(&mut self, event: LineEvent) -> (next: (Vec<Effect>, bool))
        ensures
            match event {
                LineEvent::Line(line) => {
                    &&& effect_views(next.0@) == old(self)@.line_effects(line@)
                    &&& final(self)@ == old(self)@.after_line(line@)
                    &&& next.1
                },
                LineEvent::Failed => {
                    &&& effect_views(next.0@) == Seq::<EffectView>::empty()
                    &&& final(self)@ == old(self)@
                    &&& !next.1
                },
            },
    {
        match event {
            LineEvent::Line(line) => {
                let marked: bool = contains(line.as_str(), READY_MARKER);
                let ghost text = line@;
                let mut effects: Vec<Effect> = one_effect(Effect::Emit(Notice::Output(line)));
                if marked && !self.ready {
                    self.ready = true;
                    effects.push(Effect::Emit(Notice::Ready));
                    effects.push(Effect::OpenTargetAfter(READY_NAV_DELAY_MS));
                    assert(effect_views(effects@) =~= seq![
                        EffectView::Emit(NoticeView::Output(text)),
                        EffectView::Emit(NoticeView::Ready),
                        EffectView::OpenTargetAfter(READY_NAV_DELAY_MS),
                    ]);
                }
                (effects, true)
            },
            LineEvent::Failed => (no_effects(), false),
        }
    }

    /// Acts on a check on the child process. A child that ended is forgotten before its end is
    /// reported with [`child_ended`].
    pub fn poll_child(&mut self, reply: WaitReply) -> (watch: Watch)
        ensures
            watch == old(self)@.watch(reply),
            final(self)@ == old(self)@.after_watch(reply),
    {
        if self.child_poisoned || self.child.is_none() {
            return Watch::Stop;
        }
        match reply {
            WaitReply::Exited(code) => {
                self.child = None;
                Watch::Report(code)
            },
            WaitReply::Running => Watch::Continue,
            WaitReply::Failed => {
                self.child = None;
                Watch::Report(None)
            },
        }
    }

    /// Ends the child process when the launcher itself ends.
    pub fn shut_down(&mut self) -> (effects: Vec<Effect>)
        requires
            !old(self).child_poisoned,
        ensures
            effect_views(effects@) == old(self)@.exit_effects(),
            final(self)@ == (AppStateView { child: None, ..old(self)@ }),
    {
        match self.child {
            Some(pid) => {
                self.child = None;
                one_effect(Effect::Terminate(pid))
            },
            None => no_effects(),
        }
    }
}

/// Reports the end of the child process and uncovers the terminal.
pub fn child_ended(code: Option<i32>, host: &Host) -> (effects: Vec<Effect>)
    ensures
        effect_views(effects@) == end_effects(code, host@),
{
    let reported: Vec<Effect> = one_effect(Effect::Emit(Notice::Exit(code)));
    both(reported, hide_all_webviews(&host.labels))
}

/// Uncovers the terminal before the user confirms a restart. The child process keeps running.
pub fn begin_restart(host: &Host) -> (effects: Vec<Effect>)
    ensures
        effect_views(effects@) == hide_pages(host@.labels),
{
    hide_all_webviews(&host.labels)
}

} // verus!
