//! What holds of the runs of each command, whatever is reported to it.

use vstd::prelude::*;
use crate::command::CommandView;
use crate::error::ErrorView;
use crate::handlers::{ended, manifest_contents, task_name};
use crate::invocation::{
    add_request, manager, project_request, status_of, succeeded, sync_request, Completion,
};
use crate::protocol::{quiet, ActionView, EventView, Stage};
use crate::script::{default_task, inspect_request, task_request};
use crate::session::{
    answers, lemma_idle_after_the_end, lemma_runs_are_short, lemma_stage_advances, orderly,
    Session,
};

verus! {

/// Turns that run nothing add nothing to the count of invocations.
proof fn lemma_invocations_rest(session: Session, events: Seq<EventView>, from: nat, count: nat)
    requires
        from <= count,
        forall|i: int| from <= i < count ==> !(#[trigger] session.turn(events, i).action is Invoke),
    ensures
        session.invocations(events, count) == session.invocations(events, from),
    decreases count,
{
    if from < count {
        lemma_invocations_rest(session, events, from, (count - 1) as nat);
    }
}

/// `remove` without a package name fails at once with
/// `PackageNameRequired`, and no turn of its run asks for a program to be
/// run, whatever is reported to it.
pub proof fn lemma_remove_requires_a_name(session: Session, events: Seq<EventView>)
    requires
        session.command == CommandView::Remove(None),
    ensures
        session.answer(Stage::Start, EventView::Started) == ended(
            Err(ErrorView::PackageNameRequired),
        ),
        forall|i: int|
            0 <= i < events.len() ==> !(#[trigger] session.turn(events, i).action is Invoke),
        session.invocations(events, events.len()) == 0,
{
    lemma_invocations_rest(session, events, 0, events.len());
}

/// `install` or `add` without a package name installs every declared
/// dependency: the run starts with that request, and no turn of it asks
/// for anything else to be run, least of all for a package to be added.
pub proof fn lemma_install_without_name_syncs(session: Session, events: Seq<EventView>)
    requires
        session.command == CommandView::Install(None),
    ensures
        session.answer(Stage::Start, EventView::Started) == (
            Stage::Delegating,
            quiet(ActionView::Invoke(sync_request())),
        ),
        forall|i: int|
            0 <= i < events.len() && (#[trigger] session.turn(events, i).action is Invoke)
                ==> session.turn(events, i).action == ActionView::Invoke(sync_request()),
        forall|i: int, name: Seq<char>|
            0 <= i < events.len() ==> #[trigger] session.turn(events, i).action
                != ActionView::Invoke(#[trigger] add_request(name)),
{
    assert forall|name: Seq<char>| sync_request() != #[trigger] add_request(name) by {
        assert(sync_request().arguments.len() == 1);
        assert(add_request(name).arguments.len() == 2);
    }
}

/// The request with which `run` or `inspect` drives the task runner: an
/// inline program that executes the manifest and then calls the library's
/// entry point for the command.
pub open spec fn script_request(session: Session) -> crate::invocation::InvocationView {
    match session.command {
        CommandView::Run(task) => task_request(
            session.environment.manifest_filename,
            task_name(task),
        ),
        _ => inspect_request(session.environment.manifest_filename),
    }
}

/// `run` and `inspect` first ask whether the manifest exists. When it
/// does not, they fail with `ManifestMissing`, and no turn of the run asks
/// for a program to be run.
pub proof fn lemma_manifest_is_required(session: Session, events: Seq<EventView>)
    requires
        session.command is Run || session.command is Inspect,
        events.len() >= 2,
        events[0] == EventView::Started,
        events[1] == EventView::Located(false),
    ensures
        session.turn(events, 0) == quiet(
            ActionView::Locate(session.environment.manifest_filename),
        ),
        session.turn(events, 1) == quiet(ActionView::Finish(Err(ErrorView::ManifestMissing))),
        forall|i: int|
            0 <= i < events.len() ==> !(#[trigger] session.turn(events, i).action is Invoke),
        session.invocations(events, events.len()) == 0,
{
    lemma_stage_advances(session, events, 0);
    lemma_stage_advances(session, events, 1);
    assert forall|i: int| 0 <= i < events.len() implies !(#[trigger] session.turn(
        events,
        i,
    ).action is Invoke) by {
        if i >= 2 {
            lemma_idle_after_the_end(session, events, 2, i);
        }
    }
    lemma_invocations_rest(session, events, 0, events.len());
}

/// Whether every question of a run about the manifest got the answer
/// `exists`.
pub open spec fn manifest_reported(session: Session, events: Seq<EventView>, exists: bool)
    -> bool {
    forall|i: int|
        0 < i < events.len() && (#[trigger] session.turn(events, i - 1).action is Locate)
            ==> events[i] == EventView::Located(exists)
}

/// The stage at which a command waits to learn whether the manifest
/// exists, if it has one.
pub open spec fn asking_stage(command: CommandView) -> Option<Stage> {
    match command {
        CommandView::Init => Some(Stage::Checking),
        CommandView::Run(_) => Some(Stage::Locating),
        CommandView::Inspect => Some(Stage::Locating),
        _ => None,
    }
}

/// In a run in which every question about the manifest gets the same
/// answer, the stage that waits for the answer was reached by asking in
/// the turn before.
proof fn lemma_asking_follows_the_question(
    session: Session,
    events: Seq<EventView>,
    exists: bool,
    count: int,
)
    requires
        manifest_reported(session, events, exists),
        0 <= count <= events.len(),
        asking_stage(session.command) == Some(session.stage_after(events.take(count))),
    ensures
        count >= 1,
        session.turn(events, count - 1).action is Locate,
    decreases count,
{
    if count >= 1 {
        lemma_stage_advances(session, events, count - 1);
        let before = session.stage_after(events.take(count - 1));
        if asking_stage(session.command) == Some(before) {
            lemma_asking_follows_the_question(session, events, exists, count - 1);
            assert(session.turn(events, count - 1 - 1).action is Locate);
            assert(events[count - 1] == EventView::Located(exists));
        }
    }
}

/// Without the manifest `run` and `inspect` run nothing: in a run in which
/// the manifest is missing whenever it is looked for, no turn asks for a
/// program to be run, whatever else is reported.
pub proof fn lemma_nothing_runs_without_manifest(session: Session, events: Seq<EventView>)
    requires
        session.command is Run || session.command is Inspect,
        manifest_reported(session, events, false),
    ensures
        forall|i: int|
            0 <= i < events.len() ==> !(#[trigger] session.turn(events, i).action is Invoke),
        session.invocations(events, events.len()) == 0,
{
    assert forall|i: int| 0 <= i < events.len() implies !(#[trigger] session.turn(
        events,
        i,
    ).action is Invoke) by {
        if session.turn(events, i).action is Invoke {
            assert(session.stage_after(events.take(i)) == Stage::Locating);
            lemma_asking_follows_the_question(session, events, false, i);
            assert(session.turn(events, i - 1).action is Locate);
        }
    }
    lemma_invocations_rest(session, events, 0, events.len());
}

/// When the manifest exists, `run` and `inspect` go on to run the inline
/// program that is made for them from the manifest's path.
pub proof fn lemma_manifest_opens_the_script(session: Session, events: Seq<EventView>)
    requires
        session.command is Run || session.command is Inspect,
        events.len() >= 2,
        events[0] == EventView::Started,
        events[1] == EventView::Located(true),
    ensures
        session.turn(events, 0) == quiet(
            ActionView::Locate(session.environment.manifest_filename),
        ),
        session.turn(events, 1) == quiet(ActionView::Invoke(script_request(session))),
{
    lemma_stage_advances(session, events, 0);
}

/// `run` without a task name behaves in every turn as `run` with the name
/// `default`.
pub proof fn lemma_run_defaults_the_task(session: Session, stage: Stage, event: EventView)
    requires
        session.command == CommandView::Run(None),
    ensures
        session.answer(stage, event) == (Session {
            command: CommandView::Run(Some(default_task())),
            ..session
        }).answer(stage, event),
        script_request(session) == task_request(
            session.environment.manifest_filename,
            "default"@,
        ),
{
}

/// The outcome of `init` when a program of its chain ended as
/// `completion` says and so failed: the exit code, if there was one, else
/// `ToolNotFound` or `ProcessTerminatedAbnormally`.
pub open spec fn failure(completion: Completion) -> Result<i32, ErrorView> {
    status_of(manager(), completion)
}

/// When the first step of `init`, creating the environment, fails in any
/// way (a non-zero exit code, no exit code, no start), the run ends with
/// that failure: one program was asked for and no other ever is, nor is
/// the manifest looked for or written.
pub proof fn lemma_init_stops_when_creation_fails(
    session: Session,
    events: Seq<EventView>,
    completion: Completion,
)
    requires
        session.command == CommandView::Init,
        events.len() >= 2,
        events[0] == EventView::Started,
        events[1] == EventView::Completed(completion),
        !succeeded(completion),
    ensures
        session.turn(events, 0) == quiet(ActionView::Invoke(project_request())),
        session.turn(events, 1) == quiet(ActionView::Finish(failure(completion))),
        failure(completion) != Ok::<i32, ErrorView>(0),
        forall|i: int| 2 <= i < events.len() ==> #[trigger] session.turn(events, i) == quiet(
            ActionView::Idle,
        ),
        session.invocations(events, events.len()) == 1,
{
    lemma_stage_advances(session, events, 0);
    lemma_stage_advances(session, events, 1);
    assert forall|i: int| 2 <= i < events.len() implies #[trigger] session.turn(events, i)
        == quiet(ActionView::Idle) by {
        lemma_idle_after_the_end(session, events, 2, i);
    }
    lemma_invocations_rest(session, events, 1, events.len());
    assert(session.invocations(events, 1) == 1) by {
        assert(session.invocations(events, 0) == 0);
    }
}

/// When the second step of `init`, installing the task runner, fails in
/// any way, the run ends with that failure: two programs were asked for
/// and no other ever is, nor is the manifest looked for or written.
pub proof fn lemma_init_stops_when_bootstrap_fails(
    session: Session,
    events: Seq<EventView>,
    created: Completion,
    completion: Completion,
)
    requires
        session.command == CommandView::Init,
        events.len() >= 3,
        events[0] == EventView::Started,
        events[1] == EventView::Completed(created),
        succeeded(created),
        events[2] == EventView::Completed(completion),
        !succeeded(completion),
    ensures
        session.turn(events, 1) == quiet(
            ActionView::Invoke(add_request(session.environment.hellbox_package)),
        ),
        session.turn(events, 2) == quiet(ActionView::Finish(failure(completion))),
        failure(completion) != Ok::<i32, ErrorView>(0),
        forall|i: int| 3 <= i < events.len() ==> #[trigger] session.turn(events, i) == quiet(
            ActionView::Idle,
        ),
        session.invocations(events, events.len()) == 2,
{
    lemma_stage_advances(session, events, 0);
    lemma_stage_advances(session, events, 1);
    lemma_stage_advances(session, events, 2);
    assert forall|i: int| 3 <= i < events.len() implies #[trigger] session.turn(events, i)
        == quiet(ActionView::Idle) by {
        lemma_idle_after_the_end(session, events, 3, i);
    }
    lemma_invocations_rest(session, events, 2, events.len());
    assert(session.invocations(events, 2) == 2) by {
        assert(session.invocations(events, 0) == 0);
        assert(session.invocations(events, 1) == 1);
    }
}

/// In every turn of `init`, a failure of the step that was waited for
/// ends the run at once with that failure, whichever step it was.
pub proof fn lemma_init_fails_fast(session: Session, stage: Stage, completion: Completion)
    requires
        session.command == CommandView::Init,
        stage == Stage::Creating || stage == Stage::Bootstrapping,
        !succeeded(completion),
    ensures
        session.answer(stage, EventView::Completed(completion)) == ended(failure(completion)),
        failure(completion) != Ok::<i32, ErrorView>(0),
        session.answer(Stage::Writing, EventView::Written(false)) == ended(
            Err(ErrorView::ManifestWriteFailure),
        ),
{
}

/// `init` asks for the manifest to be written only in answer to the report
/// that it does not exist, and then with the fixed contents; it ends with
/// 0 only on the report that the manifest exists or that it was written.
pub proof fn lemma_manifest_written_only_when_absent(
    session: Session,
    stage: Stage,
    event: EventView,
)
    requires
        session.command == CommandView::Init,
    ensures
        session.answer(stage, event).1.action is Write ==> stage == Stage::Checking && event
            == EventView::Located(false) && session.answer(stage, event).1.action
            == (ActionView::Write {
            path: session.environment.manifest_filename,
            contents: manifest_contents(),
        }),
        session.answer(Stage::Checking, EventView::Located(true)) == ended(Ok(0)),
        session.answer(stage, event).1.action == ActionView::Finish(Ok(0)) ==> event
            == EventView::Located(true) || event == EventView::Written(true),
{
}

/// `init` never overwrites a manifest: in a run in which the manifest is
/// found whenever it is looked for, no turn asks for it to be written.
pub proof fn lemma_existing_manifest_is_kept(session: Session, events: Seq<EventView>)
    requires
        session.command == CommandView::Init,
        manifest_reported(session, events, true),
    ensures
        forall|i: int|
            0 <= i < events.len() ==> !(#[trigger] session.turn(events, i).action is Write),
{
    assert forall|i: int| 0 <= i < events.len() implies !(#[trigger] session.turn(
        events,
        i,
    ).action is Write) by {
        if session.turn(events, i).action is Write {
            lemma_manifest_written_only_when_absent(
                session,
                session.stage_after(events.take(i)),
                events[i],
            );
            lemma_asking_follows_the_question(session, events, true, i);
            assert(session.turn(events, i - 1).action is Locate);
        }
    }
}

/// The check after installation cannot fail: whatever is reported to it,
/// and whether or not the tool it looks for is there, the only outcome it
/// ever hands back is the exit code 0.
pub proof fn lemma_postinstall_always_succeeds(session: Session, events: Seq<EventView>)
    requires
        session.command == CommandView::PostInstallCheck,
    ensures
        forall|completion: Completion|
            (#[trigger] session.answer(Stage::Probing, EventView::Completed(completion))).0
                == Stage::Finished && session.answer(
                Stage::Probing,
                EventView::Completed(completion),
            ).1.action == ActionView::Finish(Ok(0)),
        forall|i: int|
            0 <= i < events.len() && (#[trigger] session.turn(events, i).action is Finish)
                ==> session.turn(events, i).action == ActionView::Finish(Ok(0)),
{
}

/// `environment` cannot fail either: no probe that fails changes the
/// outcome, which is always the exit code 0.
pub proof fn lemma_environment_always_succeeds(session: Session, events: Seq<EventView>)
    requires
        session.command == CommandView::EnvironmentInfo,
    ensures
        forall|i: int|
            0 <= i < events.len() && (#[trigger] session.turn(events, i).action is Finish)
                ==> session.turn(events, i).action == ActionView::Finish(Ok(0)),
{
}

/// A command whose work is done by one program hands that program's exit
/// code back as its own outcome, whatever the code is.
pub proof fn lemma_exit_code_is_forwarded(session: Session, code: i32)
    requires
        session.command is Install || session.command is Run || session.command is Inspect
            || (session.command matches CommandView::Remove(name) && name is Some),
    ensures
        session.answer(Stage::Delegating, EventView::Completed(Completion::Exited(code)))
            == ended(Ok(code)),
{
}

impl Session {
    /// What is on disk at the manifest's path once the first `count` events
    /// of a run have happened, if it was `before` at the start: the file
    /// changes only when a write that was asked for is reported done.
    pub open spec fn manifest_after(
        self,
        before: Option<Seq<char>>,
        events: Seq<EventView>,
        count: nat,
    ) -> Option<Seq<char>>
        decreases count,
    {
        if count == 0 {
            before
        } else {
            let earlier = self.manifest_after(before, events, (count - 1) as nat);
            if count >= 2 && events[count - 1] == EventView::Written(true) {
                match self.turn(events, count - 2).action {
                    ActionView::Write { contents, .. } => Some(contents),
                    _ => earlier,
                }
            } else {
                earlier
            }
        }
    }
}

/// Whether `events` is a faithful record of a run that found the manifest
/// as `before` at its start: each request is answered and nothing else is
/// reported, and what is said of the manifest is how things are on disk.
pub open spec fn performed(session: Session, before: Option<Seq<char>>, events: Seq<EventView>)
    -> bool {
    &&& orderly(session, events)
    &&& forall|i: int|
        0 < i < events.len() && (#[trigger] session.turn(events, i - 1).action is Locate)
            ==> events[i] == EventView::Located(
            session.manifest_after(before, events, i as nat) is Some,
        )
}

/// A manifest that is on disk when `init` starts is there unchanged at
/// every point of the run, and is never asked to be written.
pub proof fn lemma_init_keeps_the_manifest(
    session: Session,
    contents: Seq<char>,
    events: Seq<EventView>,
    count: nat,
)
    requires
        session.command == CommandView::Init,
        performed(session, Some(contents), events),
        count <= events.len(),
    ensures
        session.manifest_after(Some(contents), events, count) == Some(contents),
        forall|i: int| 0 <= i < count - 1 ==> !(#[trigger] session.turn(events, i).action is Write),
    decreases count,
{
    if count > 0 {
        lemma_init_keeps_the_manifest(session, contents, events, (count - 1) as nat);
        if count >= 2 {
            let asked = count - 2;
            if session.turn(events, asked).action is Write {
                lemma_manifest_written_only_when_absent(
                    session,
                    session.stage_after(events.take(asked)),
                    events[asked],
                );
                assert(events[asked] == EventView::Located(false));
                assert(asked > 0);
                assert(answers(events[asked], session.turn(events, asked - 1).action));
                assert(session.turn(events, asked - 1).action is Locate);
                lemma_init_keeps_the_manifest(session, contents, events, asked as nat);
            }
        }
    }
}

/// A manifest that is on disk stays on disk: no event of a run takes it
/// away.
proof fn lemma_manifest_stays(
    session: Session,
    before: Option<Seq<char>>,
    events: Seq<EventView>,
    from: nat,
    count: nat,
)
    requires
        from <= count,
        session.manifest_after(before, events, from) is Some,
    ensures
        session.manifest_after(before, events, count) is Some,
    decreases count,
{
    if from < count {
        lemma_manifest_stays(session, before, events, from, (count - 1) as nat);
    }
}

/// When `init` has ended with 0, the manifest is on disk.
pub proof fn lemma_init_leaves_a_manifest(
    session: Session,
    before: Option<Seq<char>>,
    events: Seq<EventView>,
    index: int,
)
    requires
        session.command == CommandView::Init,
        performed(session, before, events),
        0 <= index < events.len(),
        session.turn(events, index).action == ActionView::Finish(Ok(0)),
    ensures
        session.manifest_after(before, events, events.len()) is Some,
{
    lemma_manifest_written_only_when_absent(
        session,
        session.stage_after(events.take(index)),
        events[index],
    );
    assert(index > 0);
    assert(answers(events[index], session.turn(events, index - 1).action));
    if events[index] == EventView::Located(true) {
        assert(session.turn(events, index - 1).action is Locate);
        lemma_manifest_stays(session, before, events, index as nat, events.len());
    } else {
        assert(session.turn(events, index - 1).action is Write);
        assert(session.manifest_after(before, events, (index + 1) as nat) is Some);
        lemma_manifest_stays(session, before, events, (index + 1) as nat, events.len());
    }
}

/// `init` twice in a row writes the manifest once at most: after a first
/// run that ended with 0, a second run asks for nothing to be written and
/// leaves the manifest as the first run left it.
pub proof fn lemma_second_init_writes_nothing(
    session: Session,
    before: Option<Seq<char>>,
    first: Seq<EventView>,
    second: Seq<EventView>,
)
    requires
        session.command == CommandView::Init,
        performed(session, before, first),
        exists|i: int|
            0 <= i < first.len() && (#[trigger] session.turn(first, i)).action
                == ActionView::Finish(Ok(0)),
        performed(session, session.manifest_after(before, first, first.len()), second),
    ensures
        forall|i: int|
            0 <= i < second.len() ==> !(#[trigger] session.turn(second, i).action is Write),
        session.manifest_after(
            session.manifest_after(before, first, first.len()),
            second,
            second.len(),
        ) == session.manifest_after(before, first, first.len()),
{
    let ended = choose|i: int|
        0 <= i < first.len() && (#[trigger] session.turn(first, i)).action == ActionView::Finish(
            Ok(0),
        );
    lemma_init_leaves_a_manifest(session, before, first, ended);
    let between = session.manifest_after(before, first, first.len());
    let contents = between->Some_0;
    lemma_init_keeps_the_manifest(session, contents, second, second.len());
    lemma_runs_are_short(session, second);
    assert forall|i: int| 0 <= i < second.len() implies !(#[trigger] session.turn(
        second,
        i,
    ).action is Write) by {
        if i == second.len() - 1 && session.turn(second, i).action is Write {
            lemma_manifest_written_only_when_absent(
                session,
                session.stage_after(second.take(i)),
                second[i],
            );
            assert(second[i] == EventView::Located(false));
            assert(i > 0);
            assert(answers(second[i], session.turn(second, i - 1).action));
            lemma_init_keeps_the_manifest(session, contents, second, i as nat);
        }
    }
}

} // verus!
