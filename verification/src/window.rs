//! The main window, the tray icon and the events of the window system.
use crate::effect::{effect_views, lemma_effect_views_push, Effect, EffectView, MainWindow};
use crate::pages::{place_pages, relayout_dsh_webview, Host, HostView};
use crate::state::{AppState, AppStateView};
use vstd::prelude::*;
use vstd::string::*;

verus! {

broadcast use lemma_effect_views_push;

/// The tray menu entry that shows the main window.
pub const MENU_SHOW: &'static str = "show";

/// The tray menu entry that leaves the application.
pub const MENU_QUIT: &'static str = "quit";

/// A mouse button.
#[derive(Clone, Copy, Debug, PartialEq, Eq, Structural)]
pub enum Button {
    Left,
    Other,
}

/// What the mouse did on the tray icon.
#[derive(Clone, Copy, Debug, PartialEq, Eq, Structural)]
pub enum TrayEvent {
    /// A button was pressed, or released (`up`).
    Click { button: Button, up: bool },
    DoubleClick { button: Button },
    Other,
}

/// What happened to a window.
#[derive(Clone, Copy, Debug, PartialEq, Eq, Structural)]
pub enum WindowEvent {
    Resized,
    CloseRequested,
    Other,
}

/// An event that the launcher reacts to.
#[derive(Debug, PartialEq, Eq)]
pub enum AppEvent {
    /// The launcher was started a second time.
    SecondInstance,
    /// An entry of the tray menu was chosen.
    Menu(String),
    /// The mouse was used on the tray icon.
    Tray(TrayEvent),
    /// Something happened to a window.
    Window(WindowEvent),
    /// The application is ending.
    Exit,
}

/// The contents of an [`AppEvent`].
pub enum AppEventView {
    SecondInstance,
    Menu(Seq<char>),
    Tray(TrayEvent),
    Window(WindowEvent),
    Exit,
}

impl View for AppEvent {
    type V = AppEventView;

    open spec fn view(&self) -> AppEventView {
        match self {
            AppEvent::SecondInstance => AppEventView::SecondInstance,
            AppEvent::Menu(id) => AppEventView::Menu(id@),
            AppEvent::Tray(event) => AppEventView::Tray(*event),
            AppEvent::Window(event) => AppEventView::Window(*event),
            AppEvent::Exit => AppEventView::Exit,
        }
    }
}

/// The handle through which the main window is reached, if it exists. Once its main web view is
/// gone, only the bare window is left.
pub open spec fn reachable(host: HostView) -> Option<MainWindow> {
    if host.main_view {
        Some(MainWindow::WithView)
    } else if host.main_window {
        Some(MainWindow::Bare)
    } else {
        None
    }
}

/// Bringing the main window to the front.
pub open spec fn raise(host: HostView) -> Seq<EffectView> {
    match reachable(host) {
        Some(window) => seq![
            EffectView::ShowWindow(window),
            EffectView::Unminimize(window),
            EffectView::FocusWindow(window),
        ],
        None => Seq::empty(),
    }
}

/// Hiding the main window to the tray.
pub open spec fn lower(host: HostView) -> Seq<EffectView> {
    match reachable(host) {
        Some(window) => seq![EffectView::HideWindow(window)],
        None => Seq::empty(),
    }
}

/// The mouse asked for the main window: a left click, counted when the button is released, or a
/// left double click.
pub open spec fn asks_for_window(event: TrayEvent) -> bool {
    ||| event == (TrayEvent::Click { button: Button::Left, up: true })
    ||| event == (TrayEvent::DoubleClick { button: Button::Left })
}

/// What an event leads to.
pub open spec fn reaction(state: AppStateView, event: AppEventView, host: HostView) -> Seq<
    EffectView,
> {
    match event {
        AppEventView::SecondInstance => raise(host),
        AppEventView::Menu(id) => if id == MENU_SHOW@ {
            raise(host)
        } else if id == MENU_QUIT@ {
            seq![EffectView::Quit(0)]
        } else {
            Seq::empty()
        },
        AppEventView::Tray(event) => if asks_for_window(event) {
            raise(host)
        } else {
            Seq::empty()
        },
        AppEventView::Window(WindowEvent::Resized) => place_pages(host.labels),
        AppEventView::Window(WindowEvent::CloseRequested) => seq![
            EffectView::PreventClose,
            EffectView::HideEventWindow,
        ],
        AppEventView::Window(WindowEvent::Other) => Seq::empty(),
        AppEventView::Exit => state.exit_effects(),
    }
}

/// The state after an event.
pub open spec fn after_event(state: AppStateView, event: AppEventView) -> AppStateView {
    if event is Exit {
        AppStateView { child: None, ..state }
    } else {
        state
    }
}

fn reach(host: &Host) -> (window: Option<MainWindow>)
    ensures
        window == reachable(host@),
{
    if host.main_view {
        Some(MainWindow::WithView)
    } else if host.main_window {
        Some(MainWindow::Bare)
    } else {
        None
    }
}

/// Brings the main window back from the tray and to the front.
pub fn show_main_window(host: &Host) -> (effects: Vec<Effect>)
    ensures
        effect_views(effects@) == raise(host@),
{
    let mut effects: Vec<Effect> = Vec::new();
    if let Some(window) = reach(host) {
        effects.push(Effect::ShowWindow(window));
        effects.push(Effect::Unminimize(window));
        effects.push(Effect::FocusWindow(window));
    }
    assert(effect_views(effects@) =~= raise(host@));
    effects
}

/// Hides the main window to the tray without asking it to close, which would destroy its web view
/// on some platforms.
pub fn hide_to_tray(host: &Host) -> (effects: Vec<Effect>)
    ensures
        effect_views(effects@) == lower(host@),
{
    let mut effects: Vec<Effect> = Vec::new();
    if let Some(window) = reach(host) {
        effects.push(Effect::HideWindow(window));
    }
    assert(effect_views(effects@) =~= lower(host@));
    effects
}

/// Reacts to an event of the window system.
pub fn react(state: &mut AppState, event: AppEvent, host: &Host) -> (effects: Vec<Effect>)
    requires
        event is Exit ==> !old(state).child_poisoned,
    ensures
        effect_views(effects@) == reaction(old(state)@, event@, host@),
        final(state)@ == after_event(old(state)@, event@),
{
    let mut effects: Vec<Effect> = Vec::new();
    assert(effect_views(effects@) =~= Seq::empty());
    match event {
        AppEvent::SecondInstance => show_main_window(host),
        AppEvent::Menu(id) => {
            if id == MENU_SHOW.to_owned() {
                return show_main_window(host);
            }
            if id == MENU_QUIT.to_owned() {
                effects.push(Effect::Quit(0));
                assert(effect_views(effects@) =~= seq![EffectView::Quit(0)]);
            }
            effects
        },
        AppEvent::Tray(TrayEvent::Click { button: Button::Left, up: true }) => show_main_window(
            host,
        ),
        AppEvent::Tray(TrayEvent::DoubleClick { button: Button::Left }) => show_main_window(host),
        AppEvent::Tray(_) => effects,
        AppEvent::Window(WindowEvent::Resized) => relayout_dsh_webview(&host.labels),
        AppEvent::Window(WindowEvent::CloseRequested) => {
            effects.push(Effect::PreventClose);
            effects.push(Effect::HideEventWindow);
            assert(effect_views(effects@) =~= seq![
                EffectView::PreventClose,
                EffectView::HideEventWindow,
            ]);
            effects
        },
        AppEvent::Window(WindowEvent::Other) => effects,
        AppEvent::Exit => state.shut_down(),
    }
}

/// Only the tray menu's own entry leaves the application; in particular, closing a window does
/// not.
pub proof fn law_only_the_menu_quits(state: AppStateView, event: AppEventView, host: HostView)
    ensures
        (exists|i: int|
            0 <= i < reaction(state, event, host).len() && #[trigger] reaction(state, event, host)[i]
                is Quit) <==> event == AppEventView::Menu(MENU_QUIT@),
{
    let effects = reaction(state, event, host);
    reveal_strlit("show");
    reveal_strlit("quit");
    assert(MENU_SHOW@[0] == 's' && MENU_QUIT@[0] == 'q');
    if event == AppEventView::Menu(MENU_QUIT@) {
        assert(effects[0] is Quit);
    }
}

/// A window that is asked to close stays and is hidden, and the web service keeps running.
pub proof fn law_closing_keeps_running(state: AppStateView, host: HostView)
    ensures
        reaction(state, AppEventView::Window(WindowEvent::CloseRequested), host) == seq![
            EffectView::PreventClose,
            EffectView::HideEventWindow,
        ],
        after_event(state, AppEventView::Window(WindowEvent::CloseRequested)) == state,
{
}

/// The event asks for the main window: a second launch, the tray menu's entry for it, or the mouse
/// on the tray icon.
pub open spec fn wants_window(event: AppEventView) -> bool {
    match event {
        AppEventView::SecondInstance => true,
        AppEventView::Menu(id) => id == MENU_SHOW@,
        AppEventView::Tray(event) => asks_for_window(event),
        _ => false,
    }
}

/// While the application runs, every event of the window system leaves the web service alone, and
/// the launcher stays in the tray: a request to close a window is turned into hiding it, a resized
/// window has its pages placed again, and whatever asks for the main window brings it to the front.
/// The tray menu's own entry leaves the application, with success, and nothing else does.
pub proof fn law_events_keep_the_service(state: AppStateView, event: AppEventView, host: HostView)
    requires
        event !is Exit,
    ensures
        after_event(state, event) == state,
        reaction(state, event, host) == (if wants_window(event) {
            raise(host)
        } else if event == AppEventView::Menu(MENU_QUIT@) {
            seq![EffectView::Quit(0)]
        } else if event == AppEventView::Window(WindowEvent::CloseRequested) {
            seq![EffectView::PreventClose, EffectView::HideEventWindow]
        } else if event == AppEventView::Window(WindowEvent::Resized) {
            place_pages(host.labels)
        } else {
            Seq::<EffectView>::empty()
        }),
        forall|i: int|
            0 <= i < reaction(state, event, host).len() ==> !(#[trigger] reaction(
                state,
                event,
                host,
            )[i] is Terminate),
        (exists|i: int|
            0 <= i < reaction(state, event, host).len() && #[trigger] reaction(state, event, host)[i]
                is Quit) <==> event == AppEventView::Menu(MENU_QUIT@),
{
    law_only_the_menu_quits(state, event, host);
}

/// The mouse asks for the main window by a left click, once the button is released, or a left double
/// click; a press, another button or anything else does not.
pub proof fn law_left_clicks_ask_for_the_window(button: Button, up: bool)
    ensures
        asks_for_window(TrayEvent::Click { button, up }) <==> button == Button::Left && up,
        asks_for_window(TrayEvent::DoubleClick { button }) <==> button == Button::Left,
        !asks_for_window(TrayEvent::Other),
{
}

/// Raising the main window shows it, restores it and gives it the focus, in this order, and
/// lowering it hides it; both reach the same window. That is the one with its main web view as long
/// as it has one, else the bare one, and where there is no main window nothing is done.
pub proof fn law_raising_and_lowering_meet_the_window(host: HostView)
    ensures
        ({
            let up = raise(host);
            let down = lower(host);
            if host.main_view || host.main_window {
                &&& up.len() == 3 && down.len() == 1
                &&& down[0] matches EffectView::HideWindow(window) && {
                    &&& up[0] == EffectView::ShowWindow(window)
                    &&& up[1] == EffectView::Unminimize(window)
                    &&& up[2] == EffectView::FocusWindow(window)
                    &&& window == MainWindow::WithView <==> host.main_view
                }
            } else {
                up.len() == 0 && down.len() == 0
            }
        }),
{
}

/// An entry of the tray menu is known by its exact name: one shows the window, one leaves, and any
/// other does nothing.
pub proof fn law_menu_entries_are_known_by_name(state: AppStateView, id: Seq<char>, host: HostView)
    ensures
        id == "show"@ ==> reaction(state, AppEventView::Menu(id), host) == raise(host),
        id == "quit"@ ==> reaction(state, AppEventView::Menu(id), host).len() == 1 && reaction(
            state,
            AppEventView::Menu(id),
            host,
        )[0] == EffectView::Quit(0),
        id != "show"@ && id != "quit"@ ==> reaction(state, AppEventView::Menu(id), host).len() == 0,
{
    reveal_strlit("show");
    reveal_strlit("quit");
    assert("show"@[0] == 's' && "quit"@[0] == 'q');
}

/// No event changes anything of the state but the child process, and only the end of the
/// application changes that: it is let go, and is the one process that is ended.
pub proof fn law_events_change_only_the_child(
    state: AppStateView,
    event: AppEventView,
    host: HostView,
)
    ensures
        ({
            let now = after_event(state, event);
            &&& now.ready == state.ready
            &&& now.target == state.target
            &&& now.target_poisoned == state.target_poisoned
            &&& now.child_poisoned == state.child_poisoned
            &&& now.child == (if event is Exit {
                None
            } else {
                state.child
            })
        }),
        forall|i: int|
            0 <= i < reaction(state, event, host).len() ==> (#[trigger] reaction(
                state,
                event,
                host,
            )[i] matches EffectView::Terminate(pid) ==> event is Exit && state.child == Some(pid)),
        event is Exit && state.child is None ==> reaction(state, event, host).len() == 0,
{
    crate::pages::law_placing_places_every_page(host.labels);
}

/// When the application ends, a running child process is ended with it, and none is left.
pub proof fn law_exit_ends_the_child(state: AppStateView, host: HostView)
    ensures
        state.child matches Some(pid) ==> reaction(state, AppEventView::Exit, host) == seq![
            EffectView::Terminate(pid),
        ],
        after_event(state, AppEventView::Exit).child is None,
{
}

} // verus!
