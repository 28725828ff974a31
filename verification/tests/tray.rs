use blackout::state::ApplicationState;
use blackout::tray::{tray_main, Action, TrayEvent, TrayStep};

#[test]
fn quit_from_the_menu_is_passed_on() {
    assert_eq!(tray_main(TrayEvent::Menu(Some(Action::Quit))), TrayStep::RequestQuit);
}

#[test]
fn the_tray_leaves_when_the_application_quits() {
    assert_eq!(tray_main(TrayEvent::State(Some(ApplicationState::Quit))), TrayStep::Leave);
}

#[test]
fn anything_else_keeps_the_tray_waiting() {
    assert_eq!(tray_main(TrayEvent::State(Some(ApplicationState::Running))), TrayStep::Wait);
    assert_eq!(tray_main(TrayEvent::State(None)), TrayStep::Wait);
    assert_eq!(tray_main(TrayEvent::Menu(None)), TrayStep::Wait);
}
