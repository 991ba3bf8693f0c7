//! Whole runs of a command: what it asks for, turn after turn, as events
//! come in.

use vstd::prelude::*;
use crate::command::{CommandView, ParsedCommand};
use crate::config::{Environment, EnvironmentView};
use crate::handlers::{dispatch, ignored, routed};
use crate::protocol::{quiet, ActionView, Event, EventView, Stage, Step, StepView};

verus! {

/// What stays the same through a run: the configuration, the version of
/// the tool, and the command that is being handled.
pub struct Session {
    pub environment: EnvironmentView,
    pub version: Seq<char>,
    pub command: CommandView,
}

impl Session {
    /// The answer of the session's command at `stage` to `event`.
    pub open spec fn answer(self, stage: Stage, event: EventView) -> (Stage, StepView) {
        routed(self.environment, self.version, self.command, stage, event)
    }

    /// The stage reached once `events` have happened, one after another,
    /// from the start.
    pub open spec fn stage_after(self, events: Seq<EventView>) -> Stage
        decreases events.len(),
    {
        if events.len() == 0 {
            Stage::Start
        } else {
            self.answer(self.stage_after(events.drop_last()), events.last()).0
        }
    }

    /// The step taken in answer to the event at `index` of `events`.
    pub open spec fn turn(self, events: Seq<EventView>, index: int) -> StepView {
        self.answer(self.stage_after(events.take(index)), events[index]).1
    }

    /// How many of the first `count` turns ask for a program to be run.
    pub open spec fn invocations(self, events: Seq<EventView>, count: nat) -> nat
        decreases count,
    {
        if count == 0 {
            0
        } else {
            let earlier: nat = self.invocations(events, (count - 1) as nat);
            if self.turn(events, count - 1).action is Invoke {
                earlier + 1
            } else {
                earlier
            }
        }
    }
}

/// The stage after one more event is the answer's stage.
pub proof fn lemma_stage_advances(session: Session, events: Seq<EventView>, index: int)
    requires
        0 <= index < events.len(),
    ensures
        session.stage_after(events.take(index + 1)) == session.answer(
            session.stage_after(events.take(index)),
            events[index],
        ).0,
{
    let upto = events.take(index + 1);
    assert(upto.drop_last() =~= events.take(index));
    assert(upto.last() == events[index]);
}

/// The session in which `command` is handled under `environment` by the
/// tool in the given version.
pub open spec fn session_of(environment: Environment, version: Seq<char>, command: ParsedCommand)
    -> Session {
    Session { environment: environment@, version, command: command@ }
}

/// Events as plain values, in order.
pub open spec fn reports(events: Seq<Event>) -> Seq<EventView> {
    Seq::new(events.len(), |i: int| events[i]@)
}

/// Handles `command` from the start through all of `events`, one after
/// another, and hands back the stage reached and the step taken at each
/// event.
pub fn replay(
    environment: &Environment,
    version: &str,
    command: &ParsedCommand,
    events: Vec<Event>,
) -> (record: (Stage, Vec<Step>))
    ensures
        record.0 == session_of(*environment, version@, *command).stage_after(reports(events@)),
        record.1.len() == events.len(),
        forall|i: int|
            0 <= i < events.len() ==> (#[trigger] record.1[i])@ == session_of(
                *environment,
                version@,
                *command,
            ).turn(reports(events@), i),
{
    let ghost session = session_of(*environment, version@, *command);
    let ghost all = reports(events@);
    let ghost given = events@;
    let mut stage = Stage::Start;
    let mut steps: Vec<Step> = Vec::new();
    for event in it: events
        invariant
            it.seq() == given,
            all == reports(given),
            session == session_of(*environment, version@, *command),
            stage == session.stage_after(all.take(it.index())),
            steps.len() == it.index(),
            forall|i: int| 0 <= i < it.index() ==> (#[trigger] steps[i])@ == session.turn(all, i),
    {
        proof {
            lemma_stage_advances(session, all, it.index());
        }
        let (next, step) = dispatch(environment, version, command, stage, event);
        stage = next;
        steps.push(step);
    }
    assert(all.take(all.len() as int) =~= all);
    (stage, steps)
}

/// A finished command answers nothing: whatever is reported to it, it
/// stays finished and neither shows nor asks for anything.
pub proof fn lemma_finished_is_final(session: Session, event: EventView)
    ensures
        session.answer(Stage::Finished, event) == ignored(Stage::Finished),
{
}

/// Once a run has finished, every later turn is idle.
pub proof fn lemma_idle_after_the_end(
    session: Session,
    events: Seq<EventView>,
    end: int,
    index: int,
)
    requires
        0 <= end <= index < events.len(),
        session.stage_after(events.take(end)) == Stage::Finished,
    ensures
        session.stage_after(events.take(index)) == Stage::Finished,
        session.turn(events, index) == quiet(ActionView::Idle),
    decreases index - end,
{
    if end < index {
        lemma_idle_after_the_end(session, events, end, index - 1);
        lemma_stage_advances(session, events, index - 1);
        lemma_finished_is_final(session, events[index - 1]);
    }
    lemma_finished_is_final(session, events[index]);
}

/// Whether `event` is a report on what `action` asked for.
pub open spec fn answers(event: EventView, action: ActionView) -> bool {
    match action {
        ActionView::Invoke(invocation) => if invocation.mode == crate::invocation::IoMode::Capture {
            event is Captured
        } else {
            event is Completed
        },
        ActionView::Locate(_) => event is Located,
        ActionView::Write { .. } => event is Written,
        ActionView::Finish(_) => false,
        ActionView::Idle => false,
    }
}

/// The most turns a command at `stage` can still take before it is
/// finished.
pub open spec fn turns_left(stage: Stage) -> nat {
    match stage {
        Stage::Start => 5,
        Stage::Creating => 4,
        Stage::Bootstrapping => 3,
        Stage::Checking => 2,
        Stage::Writing => 1,
        Stage::Locating => 2,
        Stage::Delegating => 1,
        Stage::Listing => 3,
        Stage::AskingInterpreter => 2,
        Stage::AskingManager => 1,
        Stage::Probing => 1,
        Stage::Finished => 0,
    }
}

/// A report on what was asked for is never ignored: when a turn asks for
/// something and the next event answers it, the next turn is not idle.
pub proof fn lemma_answers_are_heard(
    session: Session,
    stage: Stage,
    event: EventView,
    report: EventView,
)
    requires
        answers(report, session.answer(stage, event).1.action),
    ensures
        !(session.answer(session.answer(stage, event).0, report).1.action is Idle),
{
}

/// Every turn that is not idle brings the command nearer to its end, and
/// the turn that hands back the outcome is the one that reaches it. So a
/// command takes five turns at most, and hands back one outcome.
pub proof fn lemma_every_turn_advances(session: Session, stage: Stage, event: EventView)
    ensures
        session.answer(stage, event).1.action is Idle ==> session.answer(stage, event).0 == stage,
        !(session.answer(stage, event).1.action is Idle) ==> turns_left(
            session.answer(stage, event).0,
        ) < turns_left(stage),
        session.answer(stage, event).1.action is Finish <==> session.answer(stage, event).0
            == Stage::Finished && stage != Stage::Finished,
{
}

/// Whether `events` starts the command and then answers each request, and
/// reports nothing else.
pub open spec fn orderly(session: Session, events: Seq<EventView>) -> bool {
    &&& events.len() > 0 ==> events[0] == EventView::Started
    &&& forall|i: int|
        0 < i < events.len() ==> answers(
            #[trigger] events[i],
            session.turn(events, i - 1).action,
        )
}

/// In an orderly run nothing is ignored, and each turn brings the end
/// nearer.
proof fn lemma_orderly_turns_count_down(session: Session, events: Seq<EventView>, count: int)
    requires
        orderly(session, events),
        0 <= count <= events.len(),
    ensures
        turns_left(session.stage_after(events.take(count))) + count <= 5,
        forall|i: int|
            0 <= i < count ==> !(#[trigger] session.turn(events, i).action is Idle),
    decreases count,
{
    if count > 0 {
        let last = count - 1;
        lemma_orderly_turns_count_down(session, events, last);
        lemma_stage_advances(session, events, last);
        let stage = session.stage_after(events.take(last));
        if last > 0 {
            lemma_stage_advances(session, events, last - 1);
            lemma_answers_are_heard(
                session,
                session.stage_after(events.take(last - 1)),
                events[last - 1],
                events[last],
            );
        }
        lemma_every_turn_advances(session, stage, events[last]);
    }
}

/// A run is short: when each request is answered and nothing else is
/// reported, the command is through after five events at most. No report
/// is ignored, and the outcome comes with the last turn only.
pub proof fn lemma_runs_are_short(session: Session, events: Seq<EventView>)
    requires
        orderly(session, events),
    ensures
        events.len() <= 5,
        forall|i: int|
            0 <= i < events.len() ==> !(#[trigger] session.turn(events, i).action is Idle),
        forall|i: int|
            0 <= i < events.len() && (#[trigger] session.turn(events, i).action is Finish) ==> i
                == events.len() - 1,
{
    lemma_orderly_turns_count_down(session, events, events.len() as int);
    assert forall|i: int|
        0 <= i < events.len() && (#[trigger] session.turn(
            events,
            i,
        ).action is Finish) implies i == events.len() - 1 by {
        if i < events.len() - 1 {
            assert(answers(events[i + 1], session.turn(events, i + 1 - 1).action));
        }
    }
}

} // verus!
