//! What holds of the thread that talks to the server.

use crate::config::Config;
use crate::jobs::{JobDetailMode, JobMap};
use crate::laws::requests_come_first;
use crate::model::{Pipeline, PipelineDetails, Request, User};
use crate::modes::{PipelinesMode, RunMode, RxCmd};
use crate::query::{Pages, PipelineOrder, PipelinesQuery};
use crate::state::State;
use crate::worker::{
    fetch_for, outcome_text, query_for, request_title, requests_continued, turn_begun,
    unknown_triggers, Step, Thread, ThreadAction,
};
use std::collections::VecDeque;
use std::time::Instant;
use vstd::prelude::*;

verus! {

/// Pipelines are asked for on the branch and the commit that the mode names, and on any
/// where it names none; as many as it says, in the order of their numbers; and of the
/// configured project.
pub proof fn pipelines_are_asked_for_as_the_mode_says(
    config: Config,
    info: PipelinesMode,
    current_user: User,
    query: PipelinesQuery,
)
    requires
        query == query_for(config, info, current_user),
    ensures
        query.ref_name == info.ref_name,
        query.sha == info.commithash,
        query.pages == Pages::Limit(info.nr_pipelines),
        query.order_by == PipelineOrder::Id,
        query.project == config.project,
{
}

/// Pipelines are asked for of one user, unless all users are wanted: the given one, where
/// there is one, and else the one of the API key.
pub proof fn pipelines_are_asked_for_of_the_user(
    config: Config,
    info: PipelinesMode,
    current_user: User,
    query: PipelinesQuery,
)
    requires
        query == query_for(config, info, current_user),
    ensures
        query.username is None <==> info.all_users,
        !info.all_users && info.custom_username is Some ==> query.username == info.custom_username,
        !info.all_users && info.custom_username is None ==> query.username == Some(
            current_user.username,
        ),
{
}

/// Whose pipelines are asked for has no influence on the branch, the commit, the number and
/// the project; and the branch and the commit have none on whose they are.
pub proof fn users_and_branches_are_independent(
    config: Config,
    a: PipelinesMode,
    b: PipelinesMode,
    a_user: User,
    b_user: User,
)
    ensures
        a.ref_name == b.ref_name && a.commithash == b.commithash && a.nr_pipelines
            == b.nr_pipelines ==> ({
            let one = query_for(config, a, a_user);
            let other = query_for(config, b, b_user);
            &&& one.ref_name == other.ref_name
            &&& one.sha == other.sha
            &&& one.pages == other.pages
            &&& one.project == other.project
            &&& one.order_by == other.order_by
        }),
        a.all_users == b.all_users && a.custom_username == b.custom_username && a_user == b_user
            ==> query_for(config, a, a_user).username == query_for(config, b, b_user).username,
{
}

/// Data is fetched if and only if it is what the mode shows, and an update of it was asked
/// for.
pub proof fn shown_data_is_fetched(thread: Thread, state: State)
    ensures
        fetch_for(thread, state) is Some <==> {
            ||| thread.mode is Jobs && state.jobs.update
            ||| thread.mode is PipeDiff && state.pipediff.update
            ||| thread.mode is Pipelines && state.pipelines.update
        },
        fetch_for(thread, state) matches Some(action) ==> {
            &&& action is FetchJobs <==> thread.mode is Jobs
            &&& action is FetchDiff <==> thread.mode is PipeDiff
            &&& action is FetchPipelines <==> thread.mode is Pipelines
        },
{
}

/// What is fetched is what the mode names: the jobs of its pipeline, with the manual ones if
/// and only if they are wanted; the two pipelines to compare; or the pipelines of its
/// branch.
pub proof fn what_the_mode_names_is_fetched(thread: Thread, state: State, action: ThreadAction)
    requires
        fetch_for(thread, state) == Some(action),
    ensures
        action matches ThreadAction::FetchJobs(id, detail) ==> thread.mode matches RunMode::Jobs(
            info,
        ) && id == info.pipeline_id && (detail == JobDetailMode::WithManual <==> info.manual_jobs),
        action matches ThreadAction::FetchDiff(found) ==> thread.mode matches RunMode::PipeDiff(
            info,
        ) && found.from == info.from && found.to == info.to,
        action matches ThreadAction::FetchPipelines(query) ==> thread.mode matches RunMode::Pipelines(
            info,
        ) && query.ref_name == info.ref_name && query.sha == info.commithash && (
        query.username is None <==> info.all_users),
{
}

/// A turn begins with the end of all where nothing is shown that the server knows of; else
/// with a look-up of who started a pipeline, where that is wanted and one is waiting; else
/// with listening. The one that has waited longest is looked up, and waits no more.
pub proof fn turns_begin_as_the_mode_says(before: Thread, after: Thread, action: ThreadAction)
    requires
        turn_begun(before, after, action),
    ensures
        action is Stop <==> before.mode is Nothing || before.mode is Help,
        action is FetchDetails <==> (before.mode matches RunMode::Pipelines(info)
            && info.resolve_usernames) && before.pipeline_without_trigger@.len() > 0,
        action is Stop || action is FetchDetails || action is Listen,
        action matches ThreadAction::FetchDetails(id) ==> before.pipeline_without_trigger@
            == after.pipeline_without_trigger@.push(id),
        !(action is FetchDetails) ==> after.pipeline_without_trigger
            == before.pipeline_without_trigger,
        after.mode == before.mode,
        after.pending == before.pending,
        after.updated == before.updated,
        after.config == before.config,
        after.current_user == before.current_user,
{
    if action is FetchDetails {
        let waiting = before.pipeline_without_trigger@;
        assert(waiting =~= waiting.drop_last().push(waiting.last()));
    }
}

/// The monitor is woken when there is news and no request is left, and the news are then
/// told; while requests are left, they come first and the news stay.
pub proof fn news_wake_the_monitor(
    before: Thread,
    waiting: Seq<Request>,
    after: Thread,
    step: Step,
)
    requires
        requests_continued(before, waiting, after, step),
    ensures
        step.notify <==> waiting.len() == 0 && before.updated,
        waiting.len() == 0 ==> !after.updated,
        waiting.len() > 0 ==> after.updated == before.updated,
        after.mode == before.mode,
        after.config == before.config,
        after.current_user == before.current_user,
        waiting.len() > 0 ==> after.pipeline_without_trigger == before.pipeline_without_trigger,
{
}

/// When no request is left, the next turn begins as the mode says: with the end of all where
/// nothing is shown that the server knows of, else with a look-up of who started a pipeline,
/// where that is wanted and one is waiting, and else with listening.
pub proof fn turns_begin_after_the_requests(
    before: Thread,
    waiting: Seq<Request>,
    after: Thread,
    step: Step,
)
    requires
        requests_continued(before, waiting, after, step),
        waiting.len() == 0,
    ensures
        step.action is Stop <==> before.mode is Nothing || before.mode is Help,
        step.action is FetchDetails <==> (before.mode matches RunMode::Pipelines(info)
            && info.resolve_usernames) && before.pipeline_without_trigger@.len() > 0,
        step.action is Stop || step.action is FetchDetails || step.action is Listen,
        after.pipeline_without_trigger@ + looked_up(step) == before.pipeline_without_trigger@,
{
    let idle = Thread { updated: false, pending: after.pending, ..before };
    turns_begin_as_the_mode_says(idle, after, step.action);
    assert(after.pipeline_without_trigger@ + looked_up(step)
        =~= before.pipeline_without_trigger@);
}

/// The pipeline whose starter a step looks up, if it does.
pub open spec fn looked_up(step: Step) -> Seq<u64> {
    match step.action {
        ThreadAction::FetchDetails(id) => seq![id],
        _ => Seq::empty(),
    }
}

/// The request that a step puts to the server, if it does.
pub open spec fn performed(step: Step) -> Seq<Request> {
    match step.action {
        ThreadAction::Perform(request) => seq![request],
        _ => Seq::empty(),
    }
}

/// No request is lost, none is put twice, and they keep their order: whatever a thread goes on
/// with, the request that it puts to the server, those that it holds and those that wait for
/// it are together those that were there before.
pub proof fn no_request_is_lost(
    thread: Thread,
    state: State,
    now: Instant,
    command: Option<RxCmd>,
    jobs: JobMap,
    older: JobMap,
    pipelines: Vec<Pipeline>,
    request: Request,
    outcome: Result<(), String>,
    after: Thread,
    state_after: State,
    step: Step,
)
    requires
        ({
            ||| thread.obeyed(state, command, after, state_after, step)
            ||| thread.took_jobs(state, now, jobs, after, state_after, step)
            ||| thread.took_diff(state, now, older, jobs, after, state_after, step)
            ||| thread.took_pipelines(state, now, pipelines, after, state_after, step)
            ||| thread.reported(state, now, request, outcome, after, state_after, step)
        }),
    ensures
        performed(step) + after.pending@ + state_after.request_queue@ == thread.pending@
            + state.request_queue@,
{
    let all = thread.pending@ + state.request_queue@;
    let left = performed(step) + after.pending@ + state_after.request_queue@;
    if thread.reported(state, now, request, outcome, after, state_after, step) {
        requests_come_first(Thread { updated: true, ..thread }, thread.pending@, after, step);
    }
    assert(left =~= all);
}

/// Data that the server sent wakes the monitor, once no request is left, if and only if it was
/// wanted or there was news before; it does not change the mode. Whose starter is still to be
/// looked up is as before, with those of a new list of pipelines in front.
pub proof fn data_wakes_the_monitor(
    thread: Thread,
    state: State,
    now: Instant,
    jobs: JobMap,
    older: JobMap,
    pipelines: Vec<Pipeline>,
    after: Thread,
    state_after: State,
    step: Step,
)
    ensures
        thread.took_jobs(state, now, jobs, after, state_after, step) ==> {
            &&& step.notify <==> thread.pending@.len() + state.request_queue@.len() == 0 && (
            thread.updated || state.jobs.update)
            &&& after.mode == thread.mode
            &&& after.pipeline_without_trigger@ + looked_up(step)
                == thread.pipeline_without_trigger@
        },
        thread.took_diff(state, now, older, jobs, after, state_after, step) ==> {
            &&& step.notify <==> thread.pending@.len() + state.request_queue@.len() == 0 && (
            thread.updated || state.pipediff.update)
            &&& after.mode == thread.mode
            &&& after.pipeline_without_trigger@ + looked_up(step)
                == thread.pipeline_without_trigger@
        },
        thread.took_pipelines(state, now, pipelines, after, state_after, step) ==> {
            &&& step.notify <==> thread.pending@.len() + state.request_queue@.len() == 0 && (
            thread.updated || state.pipelines.update)
            &&& after.mode == thread.mode
            &&& after.pipeline_without_trigger@ + looked_up(step) == unknown_triggers(
                pipelines@,
                state.pipeline_trigger@.dom(),
            ) + thread.pipeline_without_trigger@
        },
{
    let waiting = thread.pending@ + state.request_queue@;
    if thread.took_jobs(state, now, jobs, after, state_after, step) {
        let before = Thread { updated: thread.updated || state.jobs.update, ..thread };
        lookups_continue(before, waiting, after, step);
    }
    if thread.took_diff(state, now, older, jobs, after, state_after, step) {
        let before = Thread { updated: thread.updated || state.pipediff.update, ..thread };
        lookups_continue(before, waiting, after, step);
    }
    if thread.took_pipelines(state, now, pipelines, after, state_after, step) {
        let unknown = unknown_triggers(pipelines@, state.pipeline_trigger@.dom());
        let looking = choose|looking: VecDeque<u64>|
            {
                &&& (#[trigger] looking@) == unknown + thread.pipeline_without_trigger@
                &&& requests_continued(
                    Thread {
                        updated: thread.updated || state.pipelines.update,
                        pipeline_without_trigger: looking,
                        ..thread
                    },
                    waiting,
                    after,
                    step,
                )
            };
        let before = Thread {
            updated: thread.updated || state.pipelines.update,
            pipeline_without_trigger: looking,
            ..thread
        };
        lookups_continue(before, waiting, after, step);
    }
}

proof fn lookups_continue(before: Thread, waiting: Seq<Request>, after: Thread, step: Step)
    requires
        requests_continued(before, waiting, after, step),
    ensures
        after.pipeline_without_trigger@ + looked_up(step) == before.pipeline_without_trigger@,
        after.mode == before.mode,
        step.notify <==> waiting.len() == 0 && before.updated,
{
    if waiting.len() == 0 {
        turns_begin_after_the_requests(before, waiting, after, step);
    } else {
        assert(after.pipeline_without_trigger@ + looked_up(step)
            =~= before.pipeline_without_trigger@);
    }
}

/// A command changes the mode if and only if it says so; without a command all is over; and
/// data that was asked for is fetched before any request.
pub proof fn commands_are_obeyed(
    thread: Thread,
    state: State,
    command: Option<RxCmd>,
    after: Thread,
    state_after: State,
    step: Step,
)
    requires
        thread.obeyed(state, command, after, state_after, step),
    ensures
        command is None ==> step.action is Stop && after == thread && state_after == state,
        command matches Some(RxCmd::UpdateMode(mode)) ==> after.mode == mode,
        command matches Some(RxCmd::Refresh) ==> after.mode == thread.mode,
        command is Some && ((after.mode is Jobs && state.jobs.update) || (after.mode is PipeDiff
            && state.pipediff.update) || (after.mode is Pipelines && state.pipelines.update))
            ==> {
            &&& step.action is FetchJobs || step.action is FetchDiff
                || step.action is FetchPipelines
            &&& state_after == state
            &&& after.pending == thread.pending
        },
        command is Some && !(step.action is FetchJobs || step.action is FetchDiff
            || step.action is FetchPipelines) ==> {
            &&& step.action is Perform <==> thread.pending@.len() + state.request_queue@.len() > 0
            &&& state_after.request_queue@.len() == 0
        },
        !step.notify,
        state_after.pipelines == state.pipelines,
        state_after.jobs == state.jobs,
        state_after.pipediff == state.pipediff,
        state_after.response == state.response,
{
}

/// The words of a request's outcome begin with what it was, and each kind has its own.
pub proof fn outcomes_name_the_request(request: Request)
    ensures
        request_title(request) == "Pipeline deletion"@ <==> request is DeletePipeline,
        request_title(request) == "Pipeline cancellation"@ <==> request is CancelPipeline,
        request_title(request) == "Pipeline retry"@ <==> request is RetryPipeline,
        request_title(request) == "Job retry"@ <==> request is RetryJob,
        request_title(request) == "Job play"@ <==> request is PlayJob,
{
    reveal_strlit("Pipeline deletion");
    reveal_strlit("Pipeline cancellation");
    reveal_strlit("Pipeline retry");
    reveal_strlit("Job retry");
    reveal_strlit("Job play");
    assert("Pipeline deletion"@.len() == 17);
    assert("Pipeline cancellation"@.len() == 21);
    assert("Pipeline retry"@.len() == 14);
    assert("Job retry"@.len() == 9);
    assert("Job play"@.len() == 8);
}

/// The words of an outcome tell success if and only if there was any, and else end with the
/// error.
pub proof fn outcomes_tell_success(request: Request, outcome: Result<(), String>)
    ensures
        outcome is Ok ==> outcome_text(request, outcome) == request_title(request) + ": success"@,
        outcome matches Err(error) ==> outcome_text(request, outcome) == request_title(request)
            + ": error - "@ + error@,
        outcome_text(request, outcome) == request_title(request) + ": success"@ <==> outcome is Ok,
{
    reveal_strlit(": success");
    reveal_strlit(": error - ");
    let title = request_title(request);
    if let Err(error) = outcome {
        let text = title + ": error - "@ + error@;
        assert(text[title.len() as int + 2] == 'e');
        assert((title + ": success"@)[title.len() as int + 2] == 's');
    }
}

/// After a request the lists that it can have changed are fetched again: that of pipelines
/// after a request about a pipeline, and that of jobs after any but the retry of a
/// pipeline. The outcome is told, and nothing else changes.
pub proof fn requests_refresh_what_they_change(
    thread: Thread,
    state: State,
    now: Instant,
    request: Request,
    outcome: Result<(), String>,
    after: Thread,
    state_after: State,
    step: Step,
)
    requires
        thread.reported(state, now, request, outcome, after, state_after, step),
    ensures
        state_after.pipelines.update <==> state.pipelines.update || !(request is RetryJob
            || request is PlayJob),
        state_after.jobs.update <==> state.jobs.update || !(request is RetryPipeline),
        state_after.pipelines.data == state.pipelines.data,
        state_after.jobs.data == state.jobs.data,
        state_after.pipediff == state.pipediff,
        state_after.request_queue == state.request_queue,
        state_after.pipeline_trigger == state.pipeline_trigger,
        state_after.request_count == state.request_count,
        state_after.response matches Some((stamp, text)) && stamp == now && text@ == outcome_text(
            request,
            outcome,
        ),
        step.notify <==> thread.pending@.len() == 0,
        thread.pending@.len() > 0 ==> step.action == ThreadAction::Perform(thread.pending@[0]),
{
}

/// Jobs that were asked for are taken over, all of them, in the order of their names; the
/// monitor is woken for them; and nobody else's data is touched. Jobs that were not asked
/// for are dropped.
pub proof fn wanted_jobs_are_taken_over(
    thread: Thread,
    state: State,
    now: Instant,
    jobs: JobMap,
    after: Thread,
    state_after: State,
    step: Step,
)
    requires
        thread.took_jobs(state, now, jobs, after, state_after, step),
    ensures
        state.jobs.update ==> {
            &&& !state_after.jobs.update
            &&& state_after.jobs.data matches Some((stamp, _)) && stamp == now
            &&& state_after.jobs.items().len() == jobs.entries().len()
            &&& forall|i: int|
                0 <= i < jobs.entries().len() ==> #[trigger] state_after.jobs.items()[i]
                    == jobs.entries()[i].1
            &&& thread.pending@.len() + state.request_queue@.len() == 0 ==> step.notify
        },
        !state.jobs.update ==> state_after.jobs == state.jobs,
        state_after.request_count == state.request_count + if state.jobs.update {
            1int
        } else {
            0
        },
        state_after.pipelines == state.pipelines,
        state_after.pipediff == state.pipediff,
        state_after.response == state.response,
        state_after.pipeline_trigger == state.pipeline_trigger,
{
}

/// A difference that was asked for is taken over, the older pipeline on its left; the
/// monitor is woken for it; and nobody else's data is touched. One that was not asked for
/// is dropped.
pub proof fn wanted_difference_is_taken_over(
    thread: Thread,
    state: State,
    now: Instant,
    from: JobMap,
    to: JobMap,
    after: Thread,
    state_after: State,
    step: Step,
)
    requires
        thread.took_diff(state, now, from, to, after, state_after, step),
    ensures
        state.pipediff.update ==> {
            &&& !state_after.pipediff.update
            &&& state_after.pipediff.data matches Some((stamp, _)) && stamp == now
            &&& state_after.pipediff.items() == crate::diff::merge_join(
                from.entries(),
                to.entries(),
            )
            &&& thread.pending@.len() + state.request_queue@.len() == 0 ==> step.notify
        },
        !state.pipediff.update ==> state_after.pipediff == state.pipediff,
        state_after.request_count == state.request_count + if state.pipediff.update {
            1int
        } else {
            0
        },
        state_after.pipelines == state.pipelines,
        state_after.jobs == state.jobs,
        state_after.response == state.response,
        state_after.pipeline_trigger == state.pipeline_trigger,
{
}

/// Pipelines that were asked for are taken over as they came; the monitor is woken for them;
/// and nobody else's data is touched. A list that was not asked for is dropped.
pub proof fn wanted_pipelines_are_taken_over(
    thread: Thread,
    state: State,
    now: Instant,
    pipelines: Vec<Pipeline>,
    after: Thread,
    state_after: State,
    step: Step,
)
    requires
        thread.took_pipelines(state, now, pipelines, after, state_after, step),
    ensures
        state.pipelines.update ==> {
            &&& !state_after.pipelines.update
            &&& state_after.pipelines.data == Some((now, pipelines))
            &&& thread.pending@.len() + state.request_queue@.len() == 0 ==> step.notify
        },
        !state.pipelines.update ==> state_after.pipelines == state.pipelines,
        state_after.request_count == state.request_count + if state.pipelines.update {
            1int
        } else {
            0
        },
        state_after.jobs == state.jobs,
        state_after.pipediff == state.pipediff,
        state_after.response == state.response,
        state_after.pipeline_trigger == state.pipeline_trigger,
{
}

/// Who started a pipeline is then known of it, and of the others as before.
pub proof fn starters_become_known(
    thread: Thread,
    state: State,
    id: u64,
    details: PipelineDetails,
    after: Thread,
    state_after: State,
    step: Step,
    other: u64,
)
    requires
        thread.learned(state, id, details, after, state_after, step),
    ensures
        state_after.pipeline_trigger@.contains_key(id),
        state_after.pipeline_trigger@[id] == details.user.username,
        other != id ==> {
            &&& state_after.pipeline_trigger@.contains_key(other)
                <==> state.pipeline_trigger@.contains_key(other)
            &&& state.pipeline_trigger@.contains_key(other) ==> state_after.pipeline_trigger@[other]
                == state.pipeline_trigger@[other]
        },
        step.notify,
        step.action is Listen,
        after == thread,
        state.request_count < u64::MAX ==> state_after.request_count == state.request_count + 1,
        state_after.pipelines == state.pipelines,
        state_after.jobs == state.jobs,
        state_after.pipediff == state.pipediff,
        state_after.response == state.response,
        state_after.request_queue == state.request_queue,
{
}

/// Of the pipelines whose starter is not known, the newest is the next to be looked up.
pub proof fn newest_starter_is_next(pipelines: Seq<Pipeline>, known: Set<u64>, i: int)
    requires
        0 <= i < pipelines.len(),
        !known.contains(pipelines[i].id),
        forall|j: int| 0 <= j < i ==> known.contains((#[trigger] pipelines[j]).id),
    ensures
        unknown_triggers(pipelines, known).len() > 0,
        unknown_triggers(pipelines, known).last() == pipelines[i].id,
    decreases pipelines.len(),
{
    let rest = pipelines.drop_last();
    if i < rest.len() {
        newest_starter_is_next(rest, known, i);
    } else {
        none_are_unknown(rest, known);
    }
}

proof fn none_are_unknown(pipelines: Seq<Pipeline>, known: Set<u64>)
    requires
        forall|j: int| 0 <= j < pipelines.len() ==> known.contains((#[trigger] pipelines[j]).id),
    ensures
        unknown_triggers(pipelines, known).len() == 0,
    decreases pipelines.len(),
{
    if pipelines.len() > 0 {
        let rest = pipelines.drop_last();
        assert(forall|j: int| 0 <= j < rest.len() ==> #[trigger] rest[j] == pipelines[j]);
        none_are_unknown(rest, known);
    }
}

} // verus!
