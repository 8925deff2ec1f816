//! What the launcher asks of its surroundings: notices to the top bar, and work on pages,
//! windows and the child process.
use crate::command::{CommandSpec, CommandView};
use vstd::prelude::*;
use vstd::string::*;

verus! {

/// A notice to the top bar.
#[derive(Debug, PartialEq, Eq)]
pub enum Notice {
    /// A line that the web service wrote.
    Output(String),
    /// The web service is about to serve.
    Ready,
    /// The web service ended, with its exit code where it has one.
    Exit(Option<i32>),
    /// The selected page is shown or has finished loading.
    PageShown,
}

/// The contents of a [`Notice`].
pub enum NoticeView {
    Output(Seq<char>),
    Ready,
    Exit(Option<i32>),
    PageShown,
}

impl View for Notice {
    type V = NoticeView;

    open spec fn view(&self) -> NoticeView {
        match self {
            Notice::Output(line) => NoticeView::Output(line@),
            Notice::Ready => NoticeView::Ready,
            Notice::Exit(code) => NoticeView::Exit(*code),
            Notice::PageShown => NoticeView::PageShown,
        }
    }
}

impl NoticeView {
    /// The name of the event that carries the notice.
    pub open spec fn name(self) -> Seq<char> {
        match self {
            NoticeView::Output(_) => "dsh-output"@,
            NoticeView::Ready => "dsh-ready"@,
            NoticeView::Exit(_) => "dsh-exit"@,
            NoticeView::PageShown => "dsh-page-shown"@,
        }
    }
}

impl Notice {
    /// The name of the event that carries the notice.
    pub fn name(&self) -> (name: &'static str)
        ensures
            name@ == self@.name(),
    {
        match self {
            Notice::Output(_) => "dsh-output",
            Notice::Ready => "dsh-ready",
            Notice::Exit(_) => "dsh-exit",
            Notice::PageShown => "dsh-page-shown",
        }
    }
}

/// One of the two output streams of the child process.
#[derive(Clone, Copy, Debug, PartialEq, Eq, Structural)]
pub enum Pipe {
    Stdout,
    Stderr,
}

/// A handle to the main window.
#[derive(Clone, Copy, Debug, PartialEq, Eq, Structural)]
pub enum MainWindow {
    /// The window together with its main web view.
    WithView,
    /// The bare window, whose main web view is gone.
    Bare,
}

/// One piece of work for the surroundings. Pages are named by their labels.
#[derive(Debug, PartialEq, Eq)]
pub enum Effect {
    /// Send a notice to the top bar.
    Emit(Notice),
    /// Hide a page, keeping it alive.
    Hide(String),
    /// Show a page.
    Show(String),
    /// Give a page the keyboard focus.
    Focus(String),
    /// Destroy a page.
    Close(String),
    /// Make a page load its contents again.
    Reload(String),
    /// Make a page fill the area below the top bar.
    Place(String),
    /// Create a page, hidden until it has loaded.
    Create { label: String, url: String },
    /// Open the page for the selected address after a delay in milliseconds.
    OpenTargetAfter(u64),
    /// Start the child process.
    Launch(CommandSpec),
    /// End the child process with this identifier, along with its own children, and wait for it.
    Terminate(u32),
    /// Tie the child process with this identifier to the launcher's own lifetime.
    AssignToJob(u32),
    /// Watch the stored child process for its end.
    Monitor,
    /// Read lines from an output stream of the stored child process.
    Read(Pipe),
    /// Show the main window.
    ShowWindow(MainWindow),
    /// Restore the main window if it is minimized.
    Unminimize(MainWindow),
    /// Give the main window the keyboard focus.
    FocusWindow(MainWindow),
    /// Hide the main window.
    HideWindow(MainWindow),
    /// Keep the window whose close button was used.
    PreventClose,
    /// Hide the window that an event came from.
    HideEventWindow,
    /// Leave the application with this exit code.
    Quit(i32),
}

/// The contents of an [`Effect`].
pub enum EffectView {
    Emit(NoticeView),
    Hide(Seq<char>),
    Show(Seq<char>),
    Focus(Seq<char>),
    Close(Seq<char>),
    Reload(Seq<char>),
    Place(Seq<char>),
    Create { label: Seq<char>, url: Seq<char> },
    OpenTargetAfter(u64),
    Launch(CommandView),
    Terminate(u32),
    AssignToJob(u32),
    Monitor,
    Read(Pipe),
    ShowWindow(MainWindow),
    Unminimize(MainWindow),
    FocusWindow(MainWindow),
    HideWindow(MainWindow),
    PreventClose,
    HideEventWindow,
    Quit(i32),
}

impl View for Effect {
    type V = EffectView;

    open spec fn view(&self) -> EffectView {
        match self {
            Effect::Emit(notice) => EffectView::Emit(notice@),
            Effect::Hide(label) => EffectView::Hide(label@),
            Effect::Show(label) => EffectView::Show(label@),
            Effect::Focus(label) => EffectView::Focus(label@),
            Effect::Close(label) => EffectView::Close(label@),
            Effect::Reload(label) => EffectView::Reload(label@),
            Effect::Place(label) => EffectView::Place(label@),
            Effect::Create { label, url } => EffectView::Create { label: label@, url: url@ },
            Effect::OpenTargetAfter(ms) => EffectView::OpenTargetAfter(*ms),
            Effect::Launch(command) => EffectView::Launch(command@),
            Effect::Terminate(pid) => EffectView::Terminate(*pid),
            Effect::AssignToJob(pid) => EffectView::AssignToJob(*pid),
            Effect::Monitor => EffectView::Monitor,
            Effect::Read(pipe) => EffectView::Read(*pipe),
            Effect::ShowWindow(window) => EffectView::ShowWindow(*window),
            Effect::Unminimize(window) => EffectView::Unminimize(*window),
            Effect::FocusWindow(window) => EffectView::FocusWindow(*window),
            Effect::HideWindow(window) => EffectView::HideWindow(*window),
            Effect::PreventClose => EffectView::PreventClose,
            Effect::HideEventWindow => EffectView::HideEventWindow,
            Effect::Quit(code) => EffectView::Quit(*code),
        }
    }
}

/// The contents of a list of effects.
pub open spec fn effect_views(list: Seq<Effect>) -> Seq<EffectView> {
    list.map_values(|e: Effect| e@)
}

/// Appending an effect appends its contents.
pub broadcast proof fn lemma_effect_views_push(list: Seq<Effect>, e: Effect)
    ensures
        #[trigger] effect_views(list.push(e)) == effect_views(list).push(e@),
{
    assert(effect_views(list.push(e)) =~= effect_views(list).push(e@));
}

/// The kind of a notice decides the event that carries it, and what it holds makes no difference.
pub proof fn law_notices_are_told_apart(
    line: Seq<char>,
    other: Seq<char>,
    code: Option<i32>,
    another: Option<i32>,
)
    ensures
        NoticeView::Output(line).name() == NoticeView::Output(other).name(),
        NoticeView::Exit(code).name() == NoticeView::Exit(another).name(),
        NoticeView::Output(line).name() != NoticeView::Ready.name(),
        NoticeView::Output(line).name() != NoticeView::Exit(code).name(),
        NoticeView::Output(line).name() != NoticeView::PageShown.name(),
        NoticeView::Ready.name() != NoticeView::Exit(code).name(),
        NoticeView::Ready.name() != NoticeView::PageShown.name(),
        NoticeView::Exit(code).name() != NoticeView::PageShown.name(),
{
    reveal_strlit("dsh-output");
    reveal_strlit("dsh-ready");
    reveal_strlit("dsh-exit");
    reveal_strlit("dsh-page-shown");
    assert("dsh-output"@.len() == 10);
    assert("dsh-ready"@.len() == 9);
    assert("dsh-exit"@.len() == 8);
    assert("dsh-page-shown"@.len() == 14);
}

/// The pages that exist after some effects, given those that existed before.
pub open spec fn pages_after(pages: Set<Seq<char>>, effects: Seq<EffectView>) -> Set<Seq<char>>
    decreases effects.len(),
{
    if effects.len() == 0 {
        pages
    } else {
        let before = pages_after(pages, effects.drop_last());
        match effects.last() {
            EffectView::Create { label, .. } => before.insert(label),
            EffectView::Close(label) => before.remove(label),
            _ => before,
        }
    }
}

/// The pages that are visible after some effects, given those that were visible before.
pub open spec fn visible_after(visible: Set<Seq<char>>, effects: Seq<EffectView>) -> Set<Seq<char>>
    decreases effects.len(),
{
    if effects.len() == 0 {
        visible
    } else {
        let before = visible_after(visible, effects.drop_last());
        match effects.last() {
            EffectView::Show(label) => before.insert(label),
            EffectView::Hide(label) => before.remove(label),
            EffectView::Close(label) => before.remove(label),
            _ => before,
        }
    }
}

/// Performing two lists of effects in turn is performing their concatenation.
pub proof fn lemma_after_concat(pages: Set<Seq<char>>, first: Seq<EffectView>, second: Seq<EffectView>)
    ensures
        pages_after(pages, first + second) == pages_after(pages_after(pages, first), second),
        visible_after(pages, first + second) == visible_after(visible_after(pages, first), second),
    decreases second.len(),
{
    if second.len() == 0 {
        assert(first + second =~= first);
    } else {
        assert((first + second).drop_last() =~= first + second.drop_last());
        assert((first + second).last() == second.last());
        lemma_after_concat(pages, first, second.drop_last());
    }
}

} // verus!
