use blackout::echo::{echo_main, EchoAction, EchoOutcome, EchoStep};
use blackout::state::ApplicationState;

fn next(next: EchoAction) -> EchoStep {
    EchoStep { next, fatal: false }
}

fn fatal(next: EchoAction) -> EchoStep {
    EchoStep { next, fatal: true }
}

#[test]
fn a_message_is_written_to_a_console_that_runs() {
    let step = echo_main(EchoAction::Receive, EchoOutcome::Received(ApplicationState::Running));
    assert_eq!(step, next(EchoAction::CheckAlive));
    assert_eq!(echo_main(EchoAction::CheckAlive, EchoOutcome::Alive(true)), next(EchoAction::Write));
    assert_eq!(echo_main(EchoAction::Write, EchoOutcome::Succeeded), next(EchoAction::Receive));
}

#[test]
fn a_console_that_does_not_run_is_started_first() {
    assert_eq!(echo_main(EchoAction::CheckAlive, EchoOutcome::Alive(false)), next(EchoAction::Spawn));
    assert_eq!(echo_main(EchoAction::Spawn, EchoOutcome::Succeeded), next(EchoAction::Write));
}

#[test]
fn the_loop_ends_when_the_channel_closes_or_the_application_quits() {
    assert_eq!(echo_main(EchoAction::Receive, EchoOutcome::Closed), next(EchoAction::Kill));
    assert_eq!(
        echo_main(EchoAction::Receive, EchoOutcome::Received(ApplicationState::Quit)),
        next(EchoAction::Kill)
    );
    assert_eq!(echo_main(EchoAction::Kill, EchoOutcome::Succeeded), next(EchoAction::Finish));
}

#[test]
fn a_console_that_fails_is_fatal() {
    assert_eq!(echo_main(EchoAction::Spawn, EchoOutcome::Failed), fatal(EchoAction::Kill));
    assert_eq!(echo_main(EchoAction::Write, EchoOutcome::Failed), fatal(EchoAction::Kill));
    assert_eq!(echo_main(EchoAction::Kill, EchoOutcome::Failed), fatal(EchoAction::Finish));
}

#[test]
fn an_outcome_that_answers_nothing_changes_nothing() {
    assert_eq!(echo_main(EchoAction::Receive, EchoOutcome::Failed), next(EchoAction::Receive));
    assert_eq!(echo_main(EchoAction::Receive, EchoOutcome::Alive(true)), next(EchoAction::Receive));
    assert_eq!(echo_main(EchoAction::CheckAlive, EchoOutcome::Succeeded), next(EchoAction::CheckAlive));
    assert_eq!(echo_main(EchoAction::Write, EchoOutcome::Closed), next(EchoAction::Write));
    assert_eq!(echo_main(EchoAction::Finish, EchoOutcome::Failed), next(EchoAction::Finish));
    assert_eq!(echo_main(EchoAction::Finish, EchoOutcome::Succeeded), next(EchoAction::Finish));
}

#[test]
fn a_whole_session_ends_with_the_console_killed() {
    let outcomes = [
        EchoOutcome::Received(ApplicationState::Running),
        EchoOutcome::Alive(false),
        EchoOutcome::Succeeded,
        EchoOutcome::Succeeded,
        EchoOutcome::Received(ApplicationState::Running),
        EchoOutcome::Alive(true),
        EchoOutcome::Failed,
        EchoOutcome::Succeeded,
    ];
    let mut pending = EchoAction::Receive;
    let mut trail = vec![];
    let mut fatal_steps = 0;
    for outcome in outcomes {
        let step = echo_main(pending, outcome);
        if step.fatal {
            fatal_steps += 1;
        }
        pending = step.next;
        trail.push(pending);
    }
    assert_eq!(
        trail,
        vec![
            EchoAction::CheckAlive,
            EchoAction::Spawn,
            EchoAction::Write,
            EchoAction::Receive,
            EchoAction::CheckAlive,
            EchoAction::Write,
            EchoAction::Kill,
            EchoAction::Finish,
        ]
    );
    assert_eq!(fatal_steps, 1);
}
