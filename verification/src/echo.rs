//! The console that shows the backup's progress: the decisions of the loop
//! that feeds it. The loop itself, with the child process it keeps alive, is
//! run by the caller; it performs the action it is told and comes back with
//! what happened.

use vstd::prelude::*;

use crate::state::ApplicationState;

verus! {

/// What the loop does next.
#[derive(Clone, Copy, Debug, PartialEq, Eq, Structural)]
pub enum EchoAction {
    /// Wait for the next message, then read the application state. The loop
    /// begins here.
    Receive,
    /// Ask whether the console process runs.
    CheckAlive,
    /// Start the console process.
    Spawn,
    /// Write the message that was received last to the console.
    Write,
    /// Leave the loop and kill the console process.
    Kill,
    /// Return.
    Finish,
}

/// What came of the action that was asked for.
#[derive(Clone, Copy, Debug, PartialEq, Eq, Structural)]
pub enum EchoOutcome {
    /// A message came, and the application state was read after it.
    Received(ApplicationState),
    /// The sending side is gone.
    Closed,
    /// Whether the console process runs.
    Alive(bool),
    /// The process was started, written to or killed.
    Succeeded,
    /// The process could not be started, written to or killed.
    Failed,
}

/// The next action, and whether the outcome is fatal: the loop then reports
/// the error and asks the coordinator for `Quit`.
#[derive(Clone, Copy, Debug, PartialEq, Eq, Structural)]
pub struct EchoStep {
    pub next: EchoAction,
    pub fatal: bool,
}

/// `outcome` is one that `pending` can end in.
pub open spec fn answers(pending: EchoAction, outcome: EchoOutcome) -> bool {
    match pending {
        EchoAction::Receive => outcome is Received || outcome is Closed,
        EchoAction::CheckAlive => outcome is Alive,
        EchoAction::Spawn | EchoAction::Write | EchoAction::Kill => outcome is Succeeded
            || outcome is Failed,
        EchoAction::Finish => false,
    }
}

/// The transition of the loop. An outcome that does not answer the pending
/// action changes nothing: the action is asked for again.
pub open spec fn echo_step(pending: EchoAction, outcome: EchoOutcome) -> EchoStep {
    if !answers(pending, outcome) {
        EchoStep { next: pending, fatal: false }
    } else if outcome is Failed {
        EchoStep {
            next: if pending == EchoAction::Kill {
                EchoAction::Finish
            } else {
                EchoAction::Kill
            },
            fatal: true,
        }
    } else {
        EchoStep {
            next: match pending {
                EchoAction::Receive => if outcome == EchoOutcome::Received(
                    ApplicationState::Running,
                ) {
                    EchoAction::CheckAlive
                } else {
                    EchoAction::Kill
                },
                EchoAction::CheckAlive => if outcome == EchoOutcome::Alive(true) {
                    EchoAction::Write
                } else {
                    EchoAction::Spawn
                },
                EchoAction::Spawn => EchoAction::Write,
                EchoAction::Write => EchoAction::Receive,
                _ => EchoAction::Finish,
            },
            fatal: false,
        }
    }
}

/// One decision of the console loop: from the action that was pending and
/// what came of it to the next action. The console is restarted when it is
/// found dead before a write; a process that cannot be started, written to
/// or killed is fatal, and the loop always kills the console on its way out.
pub fn echo_main(pending: EchoAction, outcome: EchoOutcome) -> (step: EchoStep)
    ensures
        step == echo_step(pending, outcome),
        step.fatal <==> answers(pending, outcome) && outcome is Failed,
        step.next == EchoAction::Finish ==> pending == EchoAction::Kill || pending
            == EchoAction::Finish,
        step.next == EchoAction::Write && pending != EchoAction::Write ==> outcome
            == EchoOutcome::Alive(true) || (pending == EchoAction::Spawn && outcome is Succeeded),
{
    match (pending, outcome) {
        (EchoAction::Receive, EchoOutcome::Received(ApplicationState::Running)) => EchoStep {
            next: EchoAction::CheckAlive,
            fatal: false,
        },
        (EchoAction::Receive, EchoOutcome::Received(ApplicationState::Quit)) => EchoStep {
            next: EchoAction::Kill,
            fatal: false,
        },
        (EchoAction::Receive, EchoOutcome::Closed) => EchoStep {
            next: EchoAction::Kill,
            fatal: false,
        },
        (EchoAction::CheckAlive, EchoOutcome::Alive(true)) => EchoStep {
            next: EchoAction::Write,
            fatal: false,
        },
        (EchoAction::CheckAlive, EchoOutcome::Alive(false)) => EchoStep {
            next: EchoAction::Spawn,
            fatal: false,
        },
        (EchoAction::Spawn, EchoOutcome::Succeeded) => EchoStep {
            next: EchoAction::Write,
            fatal: false,
        },
        (EchoAction::Write, EchoOutcome::Succeeded) => EchoStep {
            next: EchoAction::Receive,
            fatal: false,
        },
        (EchoAction::Spawn, EchoOutcome::Failed) | (EchoAction::Write, EchoOutcome::Failed) => {
            EchoStep { next: EchoAction::Kill, fatal: true }
        },
        (EchoAction::Kill, EchoOutcome::Succeeded) => EchoStep {
            next: EchoAction::Finish,
            fatal: false,
        },
        (EchoAction::Kill, EchoOutcome::Failed) => EchoStep {
            next: EchoAction::Finish,
            fatal: true,
        },
        _ => EchoStep { next: pending, fatal: false },
    }
}

} // verus!
