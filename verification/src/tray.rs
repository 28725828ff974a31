//! The tray icon's loop: what it does when the menu is used or the
//! application state changes. The icon itself is the caller's.

use vstd::prelude::*;

use crate::state::ApplicationState;

verus! {

/// An entry of the tray menu.
#[derive(Clone, Copy, Debug, PartialEq, Eq, Structural)]
pub enum Action {
    Quit,
}

/// What woke the loop. `None` stands for a channel whose other end is gone.
#[derive(Clone, Copy, Debug, PartialEq, Eq, Structural)]
pub enum TrayEvent {
    /// A menu entry was chosen.
    Menu(Option<Action>),
    /// The coordinator told of a state.
    State(Option<ApplicationState>),
}

/// What the loop does next.
#[derive(Clone, Copy, Debug, PartialEq, Eq, Structural)]
pub enum TrayStep {
    /// Ask the coordinator for `Quit`, then leave the loop.
    RequestQuit,
    /// Leave the loop.
    Leave,
    /// Wait for the next event.
    Wait,
}

/// The loop ends when the user quits from the menu, which is passed on to
/// the whole application, and when the application quits.
pub open spec fn tray_step(event: TrayEvent) -> TrayStep {
    match event {
        TrayEvent::Menu(Some(Action::Quit)) => TrayStep::RequestQuit,
        TrayEvent::State(Some(ApplicationState::Quit)) => TrayStep::Leave,
        _ => TrayStep::Wait,
    }
}

/// One decision of the tray loop.
pub fn tray_main(event: TrayEvent) -> (step: TrayStep)
    ensures
        step == tray_step(event),
{
    match event {
        TrayEvent::Menu(Some(Action::Quit)) => TrayStep::RequestQuit,
        TrayEvent::State(Some(ApplicationState::Quit)) => TrayStep::Leave,
        _ => TrayStep::Wait,
    }
}

} // verus!
