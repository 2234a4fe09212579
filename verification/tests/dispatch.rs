use aurora::framework::{Command, CommandFramework, CommandInfo};
use aurora::{
    classify_event, event_name_or_unknown, is_registered_command, Action, CheckOutcome, Dispatch,
    EventKind, Feedback, Stage,
};

/// Drives a dispatch to the end, answering each awaited step as given.
fn drive(kind: EventKind, check: CheckOutcome, handler_ok: bool, event_ok: bool) -> Vec<Action> {
    let (mut d, mut action) = Dispatch::start(kind);
    let mut trace = vec![action];
    while action != Action::Finish {
        let feedback = match action {
            Action::RunCheck => Feedback::Check(check),
            Action::RunCommandHandler => Feedback::Handled(handler_ok),
            Action::RunEventHandler => Feedback::Handled(event_ok),
            _ => Feedback::Proceed,
        };
        assert!(d.accepts(feedback));
        action = d.step(feedback);
        trace.push(action);
    }
    assert_eq!(d.stage(), Stage::Finished);
    trace
}

#[test]
fn passing_command_runs_hooks_around_handler() {
    assert_eq!(
        drive(EventKind::RegisteredCommand, CheckOutcome::Passed, true, true),
        vec![Action::RunCheck, Action::RunPreCommand, Action::RunCommandHandler, Action::RunPostCommand, Action::Finish]
    );
}

#[test]
fn failing_handler_is_reported_before_post_hook() {
    assert_eq!(
        drive(EventKind::RegisteredCommand, CheckOutcome::Passed, false, true),
        vec![Action::RunCheck, Action::RunPreCommand, Action::RunCommandHandler, Action::ReportCommandError, Action::RunPostCommand, Action::Finish]
    );
}

#[test]
fn rejected_or_failed_check_stops_the_command() {
    assert_eq!(drive(EventKind::RegisteredCommand, CheckOutcome::Rejected, true, true), vec![Action::RunCheck, Action::Finish]);
    assert_eq!(drive(EventKind::RegisteredCommand, CheckOutcome::Failed, false, false), vec![Action::RunCheck, Action::Finish]);
}

#[test]
fn other_events_go_to_the_event_handler() {
    assert_eq!(drive(EventKind::OtherEvent, CheckOutcome::Passed, false, true), vec![Action::RunEventHandler, Action::Finish]);
    assert_eq!(
        drive(EventKind::OtherEvent, CheckOutcome::Passed, true, false),
        vec![Action::RunEventHandler, Action::ReportEventError, Action::Finish]
    );
}

#[test]
fn feedback_of_the_wrong_kind_is_not_accepted() {
    let (d, _) = Dispatch::start(EventKind::RegisteredCommand);
    assert!(!d.accepts(Feedback::Proceed));
    assert!(!d.accepts(Feedback::Handled(true)));
    assert!(d.accepts(Feedback::Check(CheckOutcome::Passed)));
    let (e, _) = Dispatch::start(EventKind::OtherEvent);
    assert!(e.accepts(Feedback::Handled(false)));
    assert!(!e.accepts(Feedback::Check(CheckOutcome::Passed)));
}

#[test]
fn registered_command_needs_a_known_name() {
    let f = CommandFramework {
        commands: vec![Command { command: CommandInfo { name: "ping".into(), id: None }, handler: () }],
    };
    assert!(is_registered_command(&f, Some("ping")));
    assert!(is_registered_command(&f, Some("ping extra")));
    assert!(!is_registered_command(&f, Some("pong")));
    assert!(!is_registered_command(&f, None));
}

#[test]
fn unnamed_events_are_reported_as_unknown() {
    assert_eq!(event_name_or_unknown(Some("MESSAGE_CREATE")), "MESSAGE_CREATE");
    assert_eq!(event_name_or_unknown(None), "unknown event");
}

#[test]
fn other_interactions_finish_without_the_event_handler() {
    assert_eq!(
        drive(EventKind::OtherInteraction, CheckOutcome::Passed, false, false),
        vec![Action::Finish]
    );
    let (d, action) = Dispatch::start(EventKind::OtherInteraction);
    assert_eq!(action, Action::Finish);
    assert_eq!(d.stage(), Stage::Finished);
    assert!(!d.accepts(Feedback::Proceed));
}

#[test]
fn events_are_classified_by_interaction_and_command_name() {
    let f = CommandFramework {
        commands: vec![Command { command: CommandInfo { name: "ping".into(), id: None }, handler: () }],
    };
    assert_eq!(classify_event(&f, true, Some("ping")), EventKind::RegisteredCommand);
    assert_eq!(classify_event(&f, true, Some("pong")), EventKind::OtherInteraction);
    assert_eq!(classify_event(&f, true, None), EventKind::OtherInteraction);
    assert_eq!(classify_event(&f, false, None), EventKind::OtherEvent);
    assert_eq!(classify_event(&f, false, Some("ping")), EventKind::OtherEvent);
}
