use dsh_launcher::effect::{Effect, MainWindow};
use dsh_launcher::job::{assign, init, next_step, JobStep};
use dsh_launcher::pages::Host;
use dsh_launcher::state::AppState;
use dsh_launcher::window::{
    hide_to_tray, react, show_main_window, AppEvent, Button, TrayEvent, WindowEvent,
};

fn host(main_view: bool, main_window: bool) -> Host {
    let labels = vec!["main".to_string(), "dsh-1".to_string()];
    Host { labels, main_view, main_window }
}

fn raised(window: MainWindow) -> Vec<Effect> {
    vec![Effect::ShowWindow(window), Effect::Unminimize(window), Effect::FocusWindow(window)]
}

fn reaction(event: AppEvent) -> Vec<Effect> {
    let mut state = AppState::default();
    let effects = react(&mut state, event, &host(true, true));
    assert_eq!(state, AppState::default());
    effects
}

#[test]
fn the_bare_window_stands_in_for_a_lost_view() {
    assert_eq!(show_main_window(&host(true, true)), raised(MainWindow::WithView));
    assert_eq!(show_main_window(&host(false, true)), raised(MainWindow::Bare));
    assert_eq!(show_main_window(&host(false, false)), vec![]);
    assert_eq!(hide_to_tray(&host(true, true)), vec![Effect::HideWindow(MainWindow::WithView)]);
    assert_eq!(hide_to_tray(&host(false, true)), vec![Effect::HideWindow(MainWindow::Bare)]);
    assert_eq!(hide_to_tray(&host(false, false)), vec![]);
}

#[test]
fn only_the_menu_entry_quits() {
    assert_eq!(reaction(AppEvent::Menu("quit".to_string())), vec![Effect::Quit(0)]);
    assert_eq!(reaction(AppEvent::Menu("show".to_string())), raised(MainWindow::WithView));
    assert_eq!(reaction(AppEvent::Menu("help".to_string())), vec![]);
    assert_eq!(reaction(AppEvent::SecondInstance), raised(MainWindow::WithView));
}

#[test]
fn the_tray_icon_shows_the_window() {
    let click = |button, up| AppEvent::Tray(TrayEvent::Click { button, up });
    assert_eq!(reaction(click(Button::Left, true)), raised(MainWindow::WithView));
    assert_eq!(reaction(click(Button::Left, false)), vec![]);
    assert_eq!(reaction(click(Button::Other, true)), vec![]);
    let double = |button| AppEvent::Tray(TrayEvent::DoubleClick { button });
    assert_eq!(reaction(double(Button::Left)), raised(MainWindow::WithView));
    assert_eq!(reaction(double(Button::Other)), vec![]);
    assert_eq!(reaction(AppEvent::Tray(TrayEvent::Other)), vec![]);
}

#[test]
fn closing_hides_and_resizing_places() {
    assert_eq!(
        reaction(AppEvent::Window(WindowEvent::CloseRequested)),
        vec![Effect::PreventClose, Effect::HideEventWindow]
    );
    assert_eq!(
        reaction(AppEvent::Window(WindowEvent::Resized)),
        vec![Effect::Place("dsh-1".to_string())]
    );
    assert_eq!(reaction(AppEvent::Window(WindowEvent::Other)), vec![]);
}

#[test]
fn the_child_ends_with_the_launcher() {
    let mut state = AppState { child: Some(8), ..AppState::default() };
    assert_eq!(react(&mut state, AppEvent::Exit, &host(true, true)), vec![Effect::Terminate(8)]);
    assert_eq!(state.child, None);
    assert_eq!(react(&mut state, AppEvent::Exit, &host(true, true)), vec![]);
}

fn job_steps(ok: impl Fn(JobStep) -> bool) -> Vec<JobStep> {
    let mut steps = vec![];
    let mut step = init();
    while step != JobStep::Done {
        steps.push(step);
        step = next_step(step, ok(step));
    }
    steps
}

#[test]
fn the_job_is_kept_or_closed() {
    let all = vec![JobStep::Create, JobStep::Limit, JobStep::AssignSelf, JobStep::Keep];
    assert_eq!(job_steps(|_| true), all);
    assert_eq!(job_steps(|s| s != JobStep::AssignSelf), all);
    assert_eq!(job_steps(|_| false), vec![JobStep::Create]);
    assert_eq!(
        job_steps(|s| s != JobStep::Limit),
        vec![JobStep::Create, JobStep::Limit, JobStep::Close]
    );
    assert_eq!(next_step(JobStep::Done, true), JobStep::Done);
}

#[test]
fn children_join_a_kept_job() {
    assert_eq!(assign(true, 9), Some(9));
    assert_eq!(assign(false, 9), None);
}
