//! The startup check: is `npx` there, and is the web service's package installed?
//!
//! The check asks its surroundings one question at a time. [`check_deps`] asks the first one, and
//! [`next_probe`] turns each answer into the next question, until a report is made.
use crate::command::{lossy_text, output_view, run_ok, stdout_of, stdout_text, succeeded,
    CommandOutput, CommandOutputView, Platform};
use crate::text::{texts, trim, trimmed};
use vstd::prelude::*;
use vstd::string::*;

verus! {

/// A path: a root and the names below it.
#[derive(Debug, PartialEq, Eq)]
pub struct PathSpec {
    pub root: String,
    pub parts: Vec<String>,
}

/// The contents of a [`PathSpec`].
#[verifier::ext_equal]
pub struct PathView {
    pub root: Seq<char>,
    pub parts: Seq<Seq<char>>,
}

impl View for PathSpec {
    type V = PathView;

    open spec fn view(&self) -> PathView {
        PathView { root: self.root@, parts: texts(self.parts@) }
    }
}

/// What the startup check found.
#[derive(Clone, Copy, Debug, PartialEq, Eq, Structural)]
pub struct DepsStatus {
    /// `npx` can be run.
    pub npx_ok: bool,
    /// The package is available to `npx`.
    pub dsh_ok: bool,
}

/// A question to the surroundings, or the final report.
#[derive(Debug, PartialEq, Eq)]
pub enum Probe {
    /// Run a command line and capture its output.
    Shell(String),
    /// Read an environment variable.
    Variable(String),
    /// Open a directory for listing.
    OpenDir(PathSpec),
    /// Take the next entry of the open directory.
    NextEntry,
    /// Is there a directory with these names below the entry just taken?
    IsDirInEntry(Vec<String>),
    /// Is there a directory at this path?
    IsDir(PathSpec),
    /// The check is done.
    Report(DepsStatus),
}

/// The contents of a [`Probe`].
#[verifier::ext_equal]
pub enum ProbeView {
    Shell(Seq<char>),
    Variable(Seq<char>),
    OpenDir(PathView),
    NextEntry,
    IsDirInEntry(Seq<Seq<char>>),
    IsDir(PathView),
    Report(DepsStatus),
}

impl View for Probe {
    type V = ProbeView;

    open spec fn view(&self) -> ProbeView {
        match self {
            Probe::Shell(cmdline) => ProbeView::Shell(cmdline@),
            Probe::Variable(name) => ProbeView::Variable(name@),
            Probe::OpenDir(path) => ProbeView::OpenDir(path@),
            Probe::NextEntry => ProbeView::NextEntry,
            Probe::IsDirInEntry(parts) => ProbeView::IsDirInEntry(texts(parts@)),
            Probe::IsDir(path) => ProbeView::IsDir(path@),
            Probe::Report(status) => ProbeView::Report(*status),
        }
    }
}

/// What taking an entry of a directory gave.
#[derive(Clone, Copy, Debug, PartialEq, Eq, Structural)]
pub enum Entry {
    Taken,
    Unreadable,
    End,
}

/// An answer from the surroundings.
#[derive(Debug, PartialEq, Eq)]
pub enum Answer {
    /// What a command line left behind; `None` if it could not be run.
    Output(Option<CommandOutput>),
    /// The value of an environment variable, if it has one.
    Value(Option<String>),
    /// What taking an entry gave.
    Entry(Entry),
    /// Whether a directory could be opened, or is there.
    Yes(bool),
}

/// The contents of an [`Answer`].
pub enum AnswerView {
    Output(Option<CommandOutputView>),
    Value(Option<Seq<char>>),
    Entry(Entry),
    Yes(bool),
}

impl View for Answer {
    type V = AnswerView;

    open spec fn view(&self) -> AnswerView {
        match self {
            Answer::Output(output) => AnswerView::Output(output_view(*output)),
            Answer::Value(Some(value)) => AnswerView::Value(Some(value@)),
            Answer::Value(None) => AnswerView::Value(None),
            Answer::Entry(entry) => AnswerView::Entry(*entry),
            Answer::Yes(yes) => AnswerView::Yes(*yes),
        }
    }
}

impl AnswerView {
    /// The output answered; an answer of another kind counts as a command that could not be run.
    pub open spec fn output(self) -> Option<CommandOutputView> {
        match self {
            AnswerView::Output(output) => output,
            _ => None,
        }
    }

    /// The value answered; an answer of another kind counts as no value.
    pub open spec fn value(self) -> Option<Seq<char>> {
        match self {
            AnswerView::Value(value) => value,
            _ => None,
        }
    }

    /// The entry answered; an answer of another kind counts as the end.
    pub open spec fn entry(self) -> Entry {
        match self {
            AnswerView::Entry(entry) => entry,
            _ => Entry::End,
        }
    }

    /// The answer is yes.
    pub open spec fn yes(self) -> bool {
        self == AnswerView::Yes(true)
    }
}

/// How far the check has come: the question that awaits its answer.
#[derive(Clone, Copy, Debug, PartialEq, Eq, Structural)]
pub enum Stage {
    /// Does `npx` run?
    Npx,
    /// Where is the package cache?
    Cache,
    /// Where is the user's local data, in place of an unknown package cache?
    LocalData,
    /// Can the directory of cached packages be opened?
    Listing,
    /// What is its next entry?
    Walking,
    /// Does that entry hold the package?
    EntryPackage,
    /// Where are global packages?
    GlobalRoot,
    /// Is the package among them?
    GlobalPackage,
    /// The report is made.
    Done(DepsStatus),
}

/// Where the package lies below a cache entry.
pub open spec fn entry_package() -> Seq<Seq<char>> {
    seq!["node_modules"@, "@deepseek-ai"@, "dsh"@]
}

/// The directory of cached packages below a package cache.
pub open spec fn npx_dir(cache: Seq<char>) -> PathView {
    PathView { root: cache, parts: seq!["_npx"@] }
}

/// The directory of cached packages below the user's local data.
pub open spec fn local_npx_dir(data: Seq<char>) -> PathView {
    PathView { root: data, parts: seq!["npm-cache"@, "_npx"@] }
}

/// Where the package lies below the directory of global packages.
pub open spec fn global_package(root: Seq<char>) -> PathView {
    PathView { root: trimmed(root), parts: seq!["@deepseek-ai"@, "dsh"@] }
}

/// The question about global packages, which is asked when the cache does not hold the package.
pub open spec fn ask_global() -> (Stage, ProbeView) {
    (Stage::GlobalRoot, ProbeView::Shell("npm root -g"@))
}

/// The final report.
pub open spec fn report(npx_ok: bool, dsh_ok: bool) -> (Stage, ProbeView) {
    let status = DepsStatus { npx_ok, dsh_ok };
    (Stage::Done(status), ProbeView::Report(status))
}

/// The question that follows an answer.
pub open spec fn following(platform: Platform, stage: Stage, answer: AnswerView) -> (
    Stage,
    ProbeView,
) {
    match stage {
        Stage::Npx => if succeeded(answer.output()) {
            (Stage::Cache, ProbeView::Shell("npm config get cache"@))
        } else {
            report(false, false)
        },
        Stage::Cache => match stdout_text(answer.output()) {
            Some(text) if trimmed(text).len() > 0 => (
                Stage::Listing,
                ProbeView::OpenDir(npx_dir(trimmed(text))),
            ),
            _ => match platform {
                Platform::Windows => (Stage::LocalData, ProbeView::Variable("LOCALAPPDATA"@)),
                Platform::Unix => ask_global(),
            },
        },
        Stage::LocalData => match answer.value() {
            Some(data) => (Stage::Listing, ProbeView::OpenDir(local_npx_dir(data))),
            None => ask_global(),
        },
        Stage::Listing => if answer.yes() {
            (Stage::Walking, ProbeView::NextEntry)
        } else {
            ask_global()
        },
        Stage::Walking => match answer.entry() {
            Entry::Taken => (Stage::EntryPackage, ProbeView::IsDirInEntry(entry_package())),
            Entry::Unreadable => (Stage::Walking, ProbeView::NextEntry),
            Entry::End => ask_global(),
        },
        Stage::EntryPackage => if answer.yes() {
            report(true, true)
        } else {
            (Stage::Walking, ProbeView::NextEntry)
        },
        Stage::GlobalRoot => match stdout_text(answer.output()) {
            Some(text) if trimmed(text).len() > 0 => (
                Stage::GlobalPackage,
                ProbeView::IsDir(global_package(text)),
            ),
            _ => report(true, false),
        },
        Stage::GlobalPackage => report(true, answer.yes()),
        Stage::Done(status) => report(status.npx_ok, status.dsh_ok),
    }
}

fn ask_global_root() -> (next: (Stage, Probe))
    ensures
        (next.0, next.1@) == ask_global(),
{
    (Stage::GlobalRoot, Probe::Shell("npm root -g".to_owned()))
}

fn make_report(npx_ok: bool, dsh_ok: bool) -> (next: (Stage, Probe))
    ensures
        (next.0, next.1@) == report(npx_ok, dsh_ok),
{
    let status: DepsStatus = DepsStatus { npx_ok, dsh_ok };
    (Stage::Done(status), Probe::Report(status))
}

/// The first question of the startup check.
pub fn check_deps() -> (first: (Stage, Probe))
    ensures
        (first.0, first.1@) == (Stage::Npx, ProbeView::Shell("npx --version"@)),
{
    (Stage::Npx, Probe::Shell("npx --version".to_owned()))
}

fn is_yes(answer: &Answer) -> (yes: bool)
    ensures
        yes == answer@.yes(),
{
    match answer {
        Answer::Yes(yes) => *yes,
        _ => false,
    }
}

fn output_in(answer: Answer) -> (output: Option<CommandOutput>)
    ensures
        output_view(output) == answer@.output(),
{
    match answer {
        Answer::Output(output) => output,
        _ => None,
    }
}

/// The question that follows an answer to the one asked at `stage`.
pub fn next_probe(platform: Platform, stage: Stage, answer: Answer) -> (next: (Stage, Probe))
    ensures
        (next.0, next.1@) == following(platform, stage, answer@),
{
    match stage {
        Stage::Npx => if run_ok(&output_in(answer)) {
            (Stage::Cache, Probe::Shell("npm config get cache".to_owned()))
        } else {
            make_report(false, false)
        },
        Stage::Cache => {
            let text: Option<String> = stdout_of(&output_in(answer));
            if let Some(text) = text {
                let root: String = trim(text.as_str());
                if !root.as_str().is_empty() {
                    return open_below(root, "_npx");
                }
            }
            match platform {
                Platform::Windows => (Stage::LocalData, Probe::Variable("LOCALAPPDATA".to_owned())),
                Platform::Unix => ask_global_root(),
            }
        },
        Stage::LocalData => match answer {
            Answer::Value(Some(data)) => {
                let mut parts: Vec<String> = Vec::new();
                parts.push("npm-cache".to_owned());
                parts.push("_npx".to_owned());
                assert(texts(parts@) =~= local_npx_dir(data@).parts);
                (Stage::Listing, Probe::OpenDir(PathSpec { root: data, parts }))
            },
            _ => ask_global_root(),
        },
        Stage::Listing => if is_yes(&answer) {
            (Stage::Walking, Probe::NextEntry)
        } else {
            ask_global_root()
        },
        Stage::Walking => match answer {
            Answer::Entry(Entry::Taken) => {
                let mut parts: Vec<String> = Vec::new();
                parts.push("node_modules".to_owned());
                parts.push("@deepseek-ai".to_owned());
                parts.push("dsh".to_owned());
                assert(texts(parts@) =~= entry_package());
                (Stage::EntryPackage, Probe::IsDirInEntry(parts))
            },
            Answer::Entry(Entry::Unreadable) => (Stage::Walking, Probe::NextEntry),
            _ => ask_global_root(),
        },
        Stage::EntryPackage => if is_yes(&answer) {
            make_report(true, true)
        } else {
            (Stage::Walking, Probe::NextEntry)
        },
        Stage::GlobalRoot => match stdout_of(&output_in(answer)) {
            Some(text) => {
                let root: String = trim(text.as_str());
                if root.as_str().is_empty() {
                    return make_report(true, false);
                }
                let mut parts: Vec<String> = Vec::new();
                parts.push("@deepseek-ai".to_owned());
                parts.push("dsh".to_owned());
                assert(texts(parts@) =~= global_package(text@).parts);
                (Stage::GlobalPackage, Probe::IsDir(PathSpec { root, parts }))
            },
            None => make_report(true, false),
        },
        Stage::GlobalPackage => make_report(true, is_yes(&answer)),
        Stage::Done(status) => make_report(status.npx_ok, status.dsh_ok),
    }
}

fn open_below(root: String, name: &str) -> (next: (Stage, Probe))
    ensures
        (next.0, next.1@) == (
            Stage::Listing,
            ProbeView::OpenDir(PathView { root: root@, parts: seq![name@] }),
        ),
{
    let mut parts: Vec<String> = Vec::new();
    parts.push(name.to_owned());
    assert(texts(parts@) =~= seq![name@]);
    (Stage::Listing, Probe::OpenDir(PathSpec { root, parts }))
}

/// Everything the check can ask about: what each command line leaves behind, the value of each
/// variable, which directories open, which entries they hold (`None` for an unreadable one, else
/// the directories that lie below it), and which directories are there.
pub struct Facts {
    pub shell: spec_fn(Seq<char>) -> Option<CommandOutputView>,
    pub variable: spec_fn(Seq<char>) -> Option<Seq<char>>,
    pub opens: spec_fn(PathView) -> bool,
    pub entries: spec_fn(PathView) -> Seq<Option<Set<Seq<Seq<char>>>>>,
    pub is_dir: spec_fn(PathView) -> bool,
}

/// The package lies below an entry of a directory.
pub open spec fn has_package(entry: Option<Set<Seq<Seq<char>>>>) -> bool {
    entry matches Some(below) && below.contains(entry_package())
}

impl Facts {
    /// `npx` can be run.
    pub open spec fn npx_ok(self) -> bool {
        succeeded((self.shell)("npx --version"@))
    }

    /// The package cache, as the package manager tells it.
    pub open spec fn cache(self) -> Option<Seq<char>> {
        match stdout_text((self.shell)("npm config get cache"@)) {
            Some(text) if trimmed(text).len() > 0 => Some(trimmed(text)),
            _ => None,
        }
    }

    /// The directory of cached packages, if it can be named.
    pub open spec fn cached_packages(self, platform: Platform) -> Option<PathView> {
        match self.cache() {
            Some(cache) => Some(npx_dir(cache)),
            None => match platform {
                Platform::Windows => match (self.variable)("LOCALAPPDATA"@) {
                    Some(data) => Some(local_npx_dir(data)),
                    None => None,
                },
                Platform::Unix => None,
            },
        }
    }

    /// Some entry of the directory holds the package.
    pub open spec fn holds_package(self, dir: PathView) -> bool {
        (self.opens)(dir) && exists|i: int|
            0 <= i < (self.entries)(dir).len() && has_package(#[trigger] (self.entries)(dir)[i])
    }

    /// The package is cached.
    pub open spec fn in_cache(self, platform: Platform) -> bool {
        match self.cached_packages(platform) {
            Some(dir) => self.holds_package(dir),
            None => false,
        }
    }

    /// The package is installed globally.
    pub open spec fn in_global(self) -> bool {
        match stdout_text((self.shell)("npm root -g"@)) {
            Some(root) => trimmed(root).len() > 0 && (self.is_dir)(global_package(root)),
            None => false,
        }
    }

    /// What the check is to report: the package counts only where `npx` runs, and is looked for in
    /// the cache and among global packages.
    pub open spec fn status(self, platform: Platform) -> DepsStatus {
        DepsStatus {
            npx_ok: self.npx_ok(),
            dsh_ok: self.npx_ok() && (self.in_cache(platform) || self.in_global()),
        }
    }

    /// The answer to a question; `dir` is the directory last opened and `taken` how many of its
    /// entries were taken.
    pub open spec fn answer(self, probe: ProbeView, dir: PathView, taken: nat) -> AnswerView {
        match probe {
            ProbeView::Shell(cmdline) => AnswerView::Output((self.shell)(cmdline)),
            ProbeView::Variable(name) => AnswerView::Value((self.variable)(name)),
            ProbeView::OpenDir(path) => AnswerView::Yes((self.opens)(path)),
            ProbeView::NextEntry => AnswerView::Entry(
                if taken >= (self.entries)(dir).len() {
                    Entry::End
                } else if (self.entries)(dir)[taken as int] is None {
                    Entry::Unreadable
                } else {
                    Entry::Taken
                },
            ),
            ProbeView::IsDirInEntry(parts) => AnswerView::Yes(
                0 < taken <= (self.entries)(dir).len() && ((self.entries)(dir)[taken
                    - 1] matches Some(below) && below.contains(parts)),
            ),
            ProbeView::IsDir(path) => AnswerView::Yes((self.is_dir)(path)),
            ProbeView::Report(_) => AnswerView::Yes(false),
        }
    }

    /// What the check reports if it is answered by these facts for at most `fuel` questions.
    pub open spec fn reported(
        self,
        platform: Platform,
        stage: Stage,
        probe: ProbeView,
        dir: PathView,
        taken: nat,
        fuel: nat,
    ) -> Option<DepsStatus>
        decreases fuel,
    {
        match probe {
            ProbeView::Report(status) => Some(status),
            _ => if fuel == 0 {
                None
            } else {
                let next = following(platform, stage, self.answer(probe, dir, taken));
                let opened = match probe {
                    ProbeView::OpenDir(path) => path,
                    _ => dir,
                };
                let count = match probe {
                    ProbeView::OpenDir(_) => 0nat,
                    ProbeView::NextEntry => taken + 1,
                    _ => taken,
                };
                self.reported(platform, next.0, next.1, opened, count, (fuel - 1) as nat)
            },
        }
    }
}

proof fn lemma_reported_global(facts: Facts, platform: Platform, dir: PathView, taken: nat, fuel: nat)
    requires
        fuel >= 2,
    ensures
        facts.reported(platform, ask_global().0, ask_global().1, dir, taken, fuel) == Some(
            DepsStatus { npx_ok: true, dsh_ok: facts.in_global() },
        ),
{
    reveal_with_fuel(Facts::reported, 3);
}

proof fn lemma_reported_walk(facts: Facts, platform: Platform, dir: PathView, taken: nat, fuel: nat)
    requires
        taken <= (facts.entries)(dir).len(),
        fuel >= 2 * ((facts.entries)(dir).len() - taken) + 3,
    ensures
        facts.reported(platform, Stage::Walking, ProbeView::NextEntry, dir, taken, fuel) == Some(
            DepsStatus {
                npx_ok: true,
                dsh_ok: facts.in_global() || exists|i: int|
                    taken <= i < (facts.entries)(dir).len() && has_package(
                        #[trigger] (facts.entries)(dir)[i],
                    ),
            },
        ),
    decreases (facts.entries)(dir).len() - taken,
{
    let entries = (facts.entries)(dir);
    if taken == entries.len() {
        lemma_reported_global(facts, platform, dir, taken + 1, (fuel - 1) as nat);
    } else if entries[taken as int] is None {
        lemma_reported_walk(facts, platform, dir, taken + 1, (fuel - 1) as nat);
        assert forall|i: int|
            taken <= i < entries.len() && has_package(
                #[trigger] entries[i],
            ) implies taken + 1 <= i by {}
    } else if has_package(entries[taken as int]) {
        reveal_with_fuel(Facts::reported, 3);
        assert(has_package(entries[taken as int]));
    } else {
        reveal_with_fuel(Facts::reported, 3);
        lemma_reported_walk(facts, platform, dir, taken + 1, (fuel - 2) as nat);
        assert forall|i: int|
            taken <= i < entries.len() && has_package(
                #[trigger] entries[i],
            ) implies taken + 1 <= i by {}
    }
}

/// Answered by any facts, the startup check comes to an end, and reports exactly what they say:
/// whether `npx` runs, and, if so, whether the package is cached or installed globally.
pub proof fn law_check_reports_the_facts(
    facts: Facts,
    platform: Platform,
    dir: PathView,
    fuel: nat,
)
    requires
        match facts.cached_packages(platform) {
            Some(cached) => fuel >= 2 * (facts.entries)(cached).len() + 7,
            None => fuel >= 6,
        },
    ensures
        facts.reported(
            platform,
            Stage::Npx,
            ProbeView::Shell("npx --version"@),
            dir,
            0,
            fuel,
        ) == Some(facts.status(platform)),
{
    if !facts.npx_ok() {
        reveal_with_fuel(Facts::reported, 2);
    } else {
        match facts.cached_packages(platform) {
            None => {
                reveal_with_fuel(Facts::reported, 4);
                lemma_reported_global(facts, platform, dir, 0, (fuel - 2) as nat);
                lemma_reported_global(facts, platform, dir, 0, (fuel - 3) as nat);
            },
            Some(cached) => {
                reveal_with_fuel(Facts::reported, 5);
                if (facts.opens)(cached) {
                    lemma_reported_walk(facts, platform, cached, 0, (fuel - 3) as nat);
                    lemma_reported_walk(facts, platform, cached, 0, (fuel - 4) as nat);
                } else {
                    lemma_reported_global(facts, platform, cached, 0, (fuel - 3) as nat);
                    lemma_reported_global(facts, platform, cached, 0, (fuel - 4) as nat);
                }
            },
        }
    }
}

/// The report at the end of the check, if it is answered by these facts.
pub open spec fn report_on(facts: Facts, platform: Platform, dir: PathView, fuel: nat) -> Option<
    DepsStatus,
> {
    facts.reported(platform, Stage::Npx, ProbeView::Shell("npx --version"@), dir, 0, fuel)
}

/// The check was given time to come to its end: two questions for each entry of the largest
/// directory, and some more.
pub open spec fn enough(facts: Facts, fuel: nat) -> bool {
    forall|dir: PathView| fuel >= 2 * (#[trigger] (facts.entries)(dir)).len() + 7
}

/// Without a working `npx` the check reports neither it nor the package; with one, it reports it.
pub proof fn law_npx_is_reported(facts: Facts, platform: Platform, dir: PathView, fuel: nat)
    requires
        enough(facts, fuel),
    ensures
        report_on(facts, platform, dir, fuel) matches Some(status) && {
            &&& status.npx_ok <==> ((facts.shell)("npx --version"@) matches Some(output)
                && output.success)
            &&& status.dsh_ok ==> status.npx_ok
        },
{
    lemma_enough(facts, platform, dir, fuel);
}

/// A package in the global directory that the package manager names is found, on every platform and
/// whatever is cached; white space around the name makes no difference.
pub proof fn law_global_package_is_found(
    facts: Facts,
    platform: Platform,
    dir: PathView,
    fuel: nat,
    output: CommandOutputView,
)
    requires
        enough(facts, fuel),
        (facts.shell)("npx --version"@) matches Some(npx) && npx.success,
        (facts.shell)("npm root -g"@) == Some(output),
        trimmed(lossy_text(output.stdout)).len() > 0,
        (facts.is_dir)(
            PathView {
                root: trimmed(lossy_text(output.stdout)),
                parts: seq!["@deepseek-ai"@, "dsh"@],
            },
        ),
    ensures
        report_on(facts, platform, dir, fuel) == Some(DepsStatus { npx_ok: true, dsh_ok: true }),
{
    lemma_enough(facts, platform, dir, fuel);
}

/// A package below any entry of the cache that the package manager names is found, on every
/// platform, whatever the other entries are and whatever is installed globally.
pub proof fn law_cached_package_is_found(
    facts: Facts,
    platform: Platform,
    dir: PathView,
    fuel: nat,
    output: CommandOutputView,
    i: int,
)
    requires
        enough(facts, fuel),
        (facts.shell)("npx --version"@) matches Some(npx) && npx.success,
        (facts.shell)("npm config get cache"@) == Some(output),
        trimmed(lossy_text(output.stdout)).len() > 0,
        ({
            let cache = PathView { root: trimmed(lossy_text(output.stdout)), parts: seq!["_npx"@] };
            &&& (facts.opens)(cache)
            &&& 0 <= i < (facts.entries)(cache).len()
            &&& (facts.entries)(cache)[i] matches Some(below) && below.contains(
                seq!["node_modules"@, "@deepseek-ai"@, "dsh"@],
            )
        }),
    ensures
        report_on(facts, platform, dir, fuel) == Some(DepsStatus { npx_ok: true, dsh_ok: true }),
{
    lemma_enough(facts, platform, dir, fuel);
    let cache = npx_dir(trimmed(lossy_text(output.stdout)));
    assert(facts.cached_packages(platform) == Some(cache));
    assert(has_package((facts.entries)(cache)[i]));
}

/// On Windows, where the package manager names no cache, a package below any entry of the cache in
/// the user's local data is found.
pub proof fn law_local_package_is_found(
    facts: Facts,
    dir: PathView,
    fuel: nat,
    data: Seq<char>,
    i: int,
)
    requires
        enough(facts, fuel),
        (facts.shell)("npx --version"@) matches Some(npx) && npx.success,
        (facts.shell)("npm config get cache"@) matches Some(output) ==> trimmed(
            lossy_text(output.stdout),
        ).len() == 0,
        (facts.variable)("LOCALAPPDATA"@) == Some(data),
        ({
            let cache = PathView { root: data, parts: seq!["npm-cache"@, "_npx"@] };
            &&& (facts.opens)(cache)
            &&& 0 <= i < (facts.entries)(cache).len()
            &&& (facts.entries)(cache)[i] matches Some(below) && below.contains(
                seq!["node_modules"@, "@deepseek-ai"@, "dsh"@],
            )
        }),
    ensures
        report_on(facts, Platform::Windows, dir, fuel) == Some(
            DepsStatus { npx_ok: true, dsh_ok: true },
        ),
{
    lemma_enough(facts, Platform::Windows, dir, fuel);
    let cache = local_npx_dir(data);
    assert(facts.cached_packages(Platform::Windows) == Some(cache));
    assert(has_package((facts.entries)(cache)[i]));
}

/// A package that is nowhere is not reported: a report of the package means that it lies below an
/// entry of a directory of cached packages that opens, or in the global directory that the package
/// manager names.
pub proof fn law_reported_package_is_there(
    facts: Facts,
    platform: Platform,
    dir: PathView,
    fuel: nat,
)
    requires
        enough(facts, fuel),
        report_on(facts, platform, dir, fuel) matches Some(status) && status.dsh_ok,
    ensures
        ({
            let cached = exists|cache: PathView, i: int|
                {
                    &&& (facts.opens)(cache)
                    &&& 0 <= i < (facts.entries)(cache).len()
                    &&& #[trigger] (facts.entries)(cache)[i] matches Some(below) && below.contains(
                        seq!["node_modules"@, "@deepseek-ai"@, "dsh"@],
                    )
                    &&& {
                        ||| (facts.shell)("npm config get cache"@) matches Some(output)
                            && cache.root == trimmed(lossy_text(output.stdout)) && cache.root.len()
                            > 0 && cache.parts == seq!["_npx"@]
                        ||| platform == Platform::Windows && (facts.variable)("LOCALAPPDATA"@)
                            == Some(cache.root) && cache.parts == seq!["npm-cache"@, "_npx"@] && (
                        (facts.shell)("npm config get cache"@) matches Some(output) ==> trimmed(
                            lossy_text(output.stdout),
                        ).len() == 0)
                    }
                };
            let global = (facts.shell)("npm root -g"@) matches Some(output) && trimmed(
                lossy_text(output.stdout),
            ).len() > 0 && (facts.is_dir)(
                PathView {
                    root: trimmed(lossy_text(output.stdout)),
                    parts: seq!["@deepseek-ai"@, "dsh"@],
                },
            );
            cached || global
        }),
{
    lemma_enough(facts, platform, dir, fuel);
    if !facts.in_global() {
        let cache = facts.cached_packages(platform)->0;
        let i = choose|i: int|
            0 <= i < (facts.entries)(cache).len() && has_package(
                #[trigger] (facts.entries)(cache)[i],
            );
        assert(has_package((facts.entries)(cache)[i]));
    }
}

proof fn lemma_enough(facts: Facts, platform: Platform, dir: PathView, fuel: nat)
    requires
        enough(facts, fuel),
    ensures
        report_on(facts, platform, dir, fuel) == Some(facts.status(platform)),
{
    assert(fuel >= 2 * (facts.entries)(dir).len() + 7);
    if let Some(cached) = facts.cached_packages(platform) {
        assert(fuel >= 2 * (facts.entries)(cached).len() + 7);
    }
    law_check_reports_the_facts(facts, platform, dir, fuel);
}

/// Whatever the answers, the package is never reported without `npx`.
pub proof fn law_package_needs_npx(platform: Platform, stage: Stage, answer: AnswerView)
    requires
        stage matches Stage::Done(status) ==> (status.dsh_ok ==> status.npx_ok),
    ensures
        following(platform, stage, answer).1 matches ProbeView::Report(status) ==> (status.dsh_ok
            ==> status.npx_ok),
{
}

} // verus!
