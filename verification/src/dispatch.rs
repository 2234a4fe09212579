use vstd::prelude::*;

use crate::framework::{
    command_index, command_names, find_first, lemma_find_first_bounds, CommandFramework,
};
use crate::text::words;

verus! {

/// What the command check answered.
#[derive(Clone, Copy, Debug, PartialEq, Eq, Structural)]
pub enum CheckOutcome {
    /// The check returned `Ok(true)`: the command may run.
    Passed,
    /// The check returned `Ok(false)`: the command must not run.
    Rejected,
    /// The check itself failed; the command does not run.
    Failed,
}

/// The next thing to do while handling one event.
#[derive(Clone, Copy, Debug, PartialEq, Eq, Structural)]
pub enum Action {
    /// Run the framework's command check.
    RunCheck,
    /// Run the framework's pre-command hook.
    RunPreCommand,
    /// Run the command's handler.
    RunCommandHandler,
    /// Hand the command handler's error to the error handler.
    ReportCommandError,
    /// Run the framework's post-command hook.
    RunPostCommand,
    /// Run the application's event handler.
    RunEventHandler,
    /// Hand the event handler's error to the error handler.
    ReportEventError,
    /// Handling of the event is complete.
    Finish,
}

/// How the last action turned out.
#[derive(Clone, Copy, Debug, PartialEq, Eq, Structural)]
pub enum Feedback {
    /// The action has completed and yields nothing to decide on.
    Proceed,
    /// The command check has answered.
    Check(CheckOutcome),
    /// A handler has returned: `true` for `Ok`, `false` for `Err`.
    Handled(bool),
}

/// The action that handling an event currently waits on.
#[derive(Clone, Copy, Debug, PartialEq, Eq, Structural)]
pub enum Stage {
    Checking,
    PreCommand,
    CommandHandler,
    CommandErrorReport,
    PostCommand,
    EventHandler,
    EventErrorReport,
    Finished,
}

/// What kind of gateway event is being handled.
#[derive(Clone, Copy, Debug, PartialEq, Eq, Structural)]
pub enum EventKind {
    /// An application command interaction for a command the framework has.
    RegisteredCommand,
    /// Any other interaction; the framework handles interactions, so these
    /// never reach the application's event handler.
    OtherInteraction,
    /// An event that is not an interaction.
    OtherEvent,
}

/// The stage and first action of handling an event of the given kind: the
/// command check for a registered command, the event handler for an event
/// that is not an interaction, and nothing for any other interaction.
pub open spec fn start_spec(kind: EventKind) -> (Stage, Action) {
    match kind {
        EventKind::RegisteredCommand => (Stage::Checking, Action::RunCheck),
        EventKind::OtherInteraction => (Stage::Finished, Action::Finish),
        EventKind::OtherEvent => (Stage::EventHandler, Action::RunEventHandler),
    }
}

/// Whether `feedback` answers the action that `stage` waits on.
pub open spec fn fits(stage: Stage, feedback: Feedback) -> bool {
    match stage {
        Stage::Checking => feedback is Check,
        Stage::CommandHandler | Stage::EventHandler => feedback is Handled,
        Stage::Finished => false,
        _ => feedback is Proceed,
    }
}

/// The next stage and action, given the feedback on the pending action.
pub open spec fn respond(stage: Stage, feedback: Feedback) -> (Stage, Action) {
    match (stage, feedback) {
        (Stage::Checking, Feedback::Check(CheckOutcome::Passed)) => (
            Stage::PreCommand,
            Action::RunPreCommand,
        ),
        (Stage::Checking, _) => (Stage::Finished, Action::Finish),
        (Stage::PreCommand, _) => (Stage::CommandHandler, Action::RunCommandHandler),
        (Stage::CommandHandler, Feedback::Handled(true)) => (
            Stage::PostCommand,
            Action::RunPostCommand,
        ),
        (Stage::CommandHandler, _) => (Stage::CommandErrorReport, Action::ReportCommandError),
        (Stage::CommandErrorReport, _) => (Stage::PostCommand, Action::RunPostCommand),
        (Stage::PostCommand, _) => (Stage::Finished, Action::Finish),
        (Stage::EventHandler, Feedback::Handled(true)) => (Stage::Finished, Action::Finish),
        (Stage::EventHandler, _) => (Stage::EventErrorReport, Action::ReportEventError),
        (Stage::EventErrorReport, _) => (Stage::Finished, Action::Finish),
        (Stage::Finished, _) => (Stage::Finished, Action::Finish),
    }
}

/// The handling of one event: which action it waits on.
pub struct Dispatch {
    stage: Stage,
}

impl View for Dispatch {
    type V = Stage;

    closed spec fn view(&self) -> Stage {
        self.stage
    }
}

impl Dispatch {
    /// Begins handling an event of the given kind. Only an event that is
    /// not an interaction starts the event handler; an interaction that is
    /// not a registered command is finished at once.
    pub fn start(kind: EventKind) -> (r: (Dispatch, Action))
        ensures
            (r.0@, r.1) == start_spec(kind),
            r.1 == Action::RunEventHandler <==> kind == EventKind::OtherEvent,
    {
        match kind {
            EventKind::RegisteredCommand => (Dispatch { stage: Stage::Checking }, Action::RunCheck),
            EventKind::OtherInteraction => (Dispatch { stage: Stage::Finished }, Action::Finish),
            EventKind::OtherEvent => (
                Dispatch { stage: Stage::EventHandler },
                Action::RunEventHandler,
            ),
        }
    }

    /// The stage this handling is in.
    pub fn stage(&self) -> (r: Stage)
        ensures
            r == self@,
    {
        self.stage
    }

    /// Whether `feedback` answers the pending action.
    pub fn accepts(&self, feedback: Feedback) -> (r: bool)
        ensures
            r == fits(self@, feedback),
    {
        match self.stage {
            Stage::Checking => matches!(feedback, Feedback::Check(_)),
            Stage::CommandHandler | Stage::EventHandler => matches!(feedback, Feedback::Handled(_)),
            Stage::Finished => false,
            _ => matches!(feedback, Feedback::Proceed),
        }
    }

    /// Takes the feedback on the pending action and gives the next action.
    pub fn step(&mut self, feedback: Feedback) -> (a: Action)
        requires
            fits(old(self)@, feedback),
        ensures
            (final(self)@, a) == respond(old(self)@, feedback),
    {
        let (stage, action) = match (self.stage, feedback) {
            (Stage::Checking, Feedback::Check(CheckOutcome::Passed)) => (
                Stage::PreCommand,
                Action::RunPreCommand,
            ),
            (Stage::Checking, _) => (Stage::Finished, Action::Finish),
            (Stage::PreCommand, _) => (Stage::CommandHandler, Action::RunCommandHandler),
            (Stage::CommandHandler, Feedback::Handled(true)) => (
                Stage::PostCommand,
                Action::RunPostCommand,
            ),
            (Stage::CommandHandler, _) => (Stage::CommandErrorReport, Action::ReportCommandError),
            (Stage::CommandErrorReport, _) => (Stage::PostCommand, Action::RunPostCommand),
            (Stage::PostCommand, _) => (Stage::Finished, Action::Finish),
            (Stage::EventHandler, Feedback::Handled(true)) => (Stage::Finished, Action::Finish),
            (Stage::EventHandler, _) => (Stage::EventErrorReport, Action::ReportEventError),
            (Stage::EventErrorReport, _) => (Stage::Finished, Action::Finish),
            (Stage::Finished, _) => (Stage::Finished, Action::Finish),
        };
        self.stage = stage;
        action
    }
}

/// Whether an incoming interaction is a command that the framework handles:
/// `command_name` is the name of the application command it carries, if it
/// carries one.
pub fn is_registered_command<H>(framework: &CommandFramework<H>, command_name: Option<&str>) -> (r:
    bool)
    ensures
        r == match command_name {
            Some(n) => command_index(framework.commands@, n@) is Some,
            None => false,
        },
{
    match command_name {
        Some(n) => framework.get_command(n).is_some(),
        None => false,
    }
}

/// The kind of an incoming event: `is_interaction` says whether it is an
/// interaction, and `command_name` is the name of the application command
/// it carries, if it carries one.
pub open spec fn event_kind<H>(
    framework: CommandFramework<H>,
    is_interaction: bool,
    command_name: Option<Seq<char>>,
) -> EventKind {
    if !is_interaction {
        EventKind::OtherEvent
    } else if command_name matches Some(n) && command_index(framework.commands@, n) is Some {
        EventKind::RegisteredCommand
    } else {
        EventKind::OtherInteraction
    }
}

/// Classifies an incoming event: a registered command is an interaction
/// carrying the name of a command the framework has; every other
/// interaction is handled by the framework without the event handler.
pub fn classify_event<H>(
    framework: &CommandFramework<H>,
    is_interaction: bool,
    command_name: Option<&str>,
) -> (r: EventKind)
    ensures
        r == event_kind(
            *framework,
            is_interaction,
            match command_name {
                Some(n) => Some(n@),
                None => None,
            },
        ),
{
    if !is_interaction {
        EventKind::OtherEvent
    } else if is_registered_command(framework, command_name) {
        EventKind::RegisteredCommand
    } else {
        EventKind::OtherInteraction
    }
}

/// The name under which an event's handler error is reported.
pub fn event_name_or_unknown(name: Option<&'static str>) -> (r: &'static str)
    ensures
        r@ == match name {
            Some(n) => n@,
            None => "unknown event"@,
        },
{
    match name {
        Some(n) => n,
        None => "unknown event",
    }
}

} // verus!

verus! {

/// How every awaited step of handling one event turns out.
pub struct Outcomes {
    pub check: CheckOutcome,
    pub handler_ok: bool,
    pub event_ok: bool,
}

/// The feedback that `stage` receives when the steps turn out as `o` says.
pub open spec fn answer(stage: Stage, o: Outcomes) -> Feedback {
    match stage {
        Stage::Checking => Feedback::Check(o.check),
        Stage::CommandHandler => Feedback::Handled(o.handler_ok),
        Stage::EventHandler => Feedback::Handled(o.event_ok),
        _ => Feedback::Proceed,
    }
}

/// The actions that stepping from `stage` issues, at most `fuel` of them.
pub open spec fn run(stage: Stage, o: Outcomes, fuel: nat) -> Seq<Action>
    decreases fuel,
{
    if fuel == 0 || stage == Stage::Finished {
        seq![]
    } else {
        let (next, a) = respond(stage, answer(stage, o));
        seq![a] + run(next, o, (fuel - 1) as nat)
    }
}

/// Every action that handling an event issues, from the start on.
pub open spec fn actions(kind: EventKind, o: Outcomes) -> Seq<Action> {
    let (stage, first) = start_spec(kind);
    seq![first] + run(stage, o, 5)
}

/// The protocol of handling an event. A registered command runs the check;
/// only when it passes do the pre-command hook, the handler and the
/// post-command hook run, in that order, with a failing handler reported
/// between the handler and the post-command hook. Any other interaction is
/// finished at once. An event that is not an interaction goes to the event
/// handler, whose failure is reported.
pub open spec fn protocol(kind: EventKind, o: Outcomes) -> Seq<Action> {
    match kind {
        EventKind::RegisteredCommand => if o.check == CheckOutcome::Passed {
            seq![Action::RunCheck, Action::RunPreCommand, Action::RunCommandHandler] + (if o.handler_ok {
                seq![]
            } else {
                seq![Action::ReportCommandError]
            }) + seq![Action::RunPostCommand, Action::Finish]
        } else {
            seq![Action::RunCheck, Action::Finish]
        },
        EventKind::OtherInteraction => seq![Action::Finish],
        EventKind::OtherEvent => seq![Action::RunEventHandler] + (if o.event_ok {
            seq![]
        } else {
            seq![Action::ReportEventError]
        }) + seq![Action::Finish],
    }
}

/// Stepping the dispatch with the feedback of each awaited step issues
/// exactly the actions of the protocol, each fed back as the step asks.
pub proof fn lemma_dispatch_follows_protocol(kind: EventKind, o: Outcomes)
    ensures
        actions(kind, o) == protocol(kind, o),
{
    reveal_with_fuel(run, 6);
    assert(actions(kind, o) =~= protocol(kind, o));
}

/// Every feedback that the run of the protocol hands to a stage is one that
/// the stage accepts, so a dispatch driven this way never gets stuck.
pub proof fn lemma_dispatch_feedback_fits(stage: Stage, o: Outcomes)
    requires
        stage != Stage::Finished,
    ensures
        fits(stage, answer(stage, o)),
{
}

/// The pre-command and post-command hooks run together or not at all, and
/// they run exactly when the event is a registered command whose check
/// passed; so does the command handler. The event handler runs exactly for
/// events that are not interactions, so never for an interaction. An error
/// is reported at most once, and only for a failed handler. Handling always
/// ends with `Finish`, and only there.
pub proof fn lemma_protocol_guarantees(kind: EventKind, o: Outcomes)
    ensures
        ({
            let t = protocol(kind, o);
            let command = kind == EventKind::RegisteredCommand;
            let passed = command && o.check == CheckOutcome::Passed;
            let other_event = kind == EventKind::OtherEvent;
            &&& t.contains(Action::RunPreCommand) <==> passed
            &&& t.contains(Action::RunPostCommand) <==> passed
            &&& t.contains(Action::RunCommandHandler) <==> passed
            &&& t.contains(Action::RunCheck) <==> command
            &&& t.contains(Action::RunEventHandler) <==> other_event
            &&& t.contains(Action::ReportCommandError) <==> passed && !o.handler_ok
            &&& t.contains(Action::ReportEventError) <==> other_event && !o.event_ok
            &&& !(t.contains(Action::ReportCommandError) && t.contains(Action::ReportEventError))
            &&& t.len() > 0 && t.last() == Action::Finish
            &&& forall|k: int| 0 <= k < t.len() - 1 ==> t[k] != Action::Finish
        }),
{
    let t = protocol(kind, o);
    let passed = kind == EventKind::RegisteredCommand && o.check == CheckOutcome::Passed;
    if passed {
        assert(t[1] == Action::RunPreCommand);
        assert(t[2] == Action::RunCommandHandler);
        if o.handler_ok {
            assert(t[3] == Action::RunPostCommand);
        } else {
            assert(t[3] == Action::ReportCommandError);
            assert(t[4] == Action::RunPostCommand);
        }
        assert(t[0] == Action::RunCheck);
    } else if kind == EventKind::RegisteredCommand {
        assert(t[0] == Action::RunCheck);
    } else if kind == EventKind::OtherEvent {
        assert(t[0] == Action::RunEventHandler);
        if !o.event_ok {
            assert(t[1] == Action::ReportEventError);
        }
    } else {
        assert(t[0] == Action::Finish);
    }
}

/// An interaction never reaches the application's event handler, whatever
/// the framework holds and whatever command name it carries.
pub proof fn lemma_interactions_skip_event_handler<H>(
    framework: CommandFramework<H>,
    command_name: Option<Seq<char>>,
    o: Outcomes,
)
    ensures
        !actions(event_kind(framework, true, command_name), o).contains(Action::RunEventHandler),
{
    let kind = event_kind(framework, true, command_name);
    lemma_dispatch_follows_protocol(kind, o);
    lemma_protocol_guarantees(kind, o);
}

} // verus!

verus! {

/// An event that is not an interaction is an ordinary event. An interaction
/// is a registered command exactly when it carries a command name whose
/// first word names some command of the framework, whatever the commands'
/// IDs are; every other interaction is left to the framework.
pub proof fn lemma_classification<H>(
    framework: CommandFramework<H>,
    is_interaction: bool,
    command_name: Option<Seq<char>>,
)
    ensures
        !is_interaction ==> event_kind(framework, is_interaction, command_name)
            == EventKind::OtherEvent,
        is_interaction ==> event_kind(framework, is_interaction, command_name)
            != EventKind::OtherEvent,
        is_interaction ==> (event_kind(framework, is_interaction, command_name)
            == EventKind::RegisteredCommand <==> (command_name matches Some(n) && words(n).len()
            > 0 && exists|i: int|
            0 <= i < framework.commands@.len() && (#[trigger] framework.commands@[i]).command.name@
                == words(n)[0])),
{
    if let Some(n) = command_name {
        if words(n).len() > 0 {
            let w = words(n)[0];
            let cmds = framework.commands@;
            lemma_find_first_bounds(command_names(cmds), w);
            if let Some(i) = find_first(command_names(cmds), w) {
                assert(command_names(cmds)[i] == cmds[i].command.name@);
            } else {
                assert forall|i: int| 0 <= i < cmds.len() implies (#[trigger] cmds[i]).command.name@
                    != w by {
                    assert(command_names(cmds)[i] == cmds[i].command.name@);
                }
            }
        }
    }
}

} // verus!
