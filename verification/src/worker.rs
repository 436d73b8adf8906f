//! The thread that talks to the server, as a machine: it tells what to do next, and
//! is told what came of it.

use crate::config::Config;
use crate::diff::diff_jobs;
#[allow(unused_imports)]
use crate::diff::merge_join;
use crate::jobs::{JobDetailMode, JobMap};
use crate::model::{Job, Pipeline, PipelineDetails, Request, User};
use crate::modes::{PipeDiff, PipelinesMode, RunMode, RxCmd};
use crate::query::{Pages, PipelineOrder, PipelinesQuery};
use crate::state::State;
#[allow(unused_imports)]
use crate::updatable::Updatable;
use std::collections::VecDeque;
use std::time::Instant;
use vstd::prelude::*;

verus! {

broadcast use vstd::std_specs::hash::group_hash_axioms;

/// What there is to do.
#[derive(Debug)]
pub enum ThreadAction {
    /// Nothing, any more.
    Stop,
    /// Wait for a command, for a second.
    Listen,
    /// Ask for the details of a pipeline.
    FetchDetails(u64),
    /// Collect the jobs of a pipeline.
    FetchJobs(u64, JobDetailMode),
    /// Collect the jobs of two pipelines, without the manual ones.
    FetchDiff(PipeDiff),
    /// Ask for a list of pipelines.
    FetchPipelines(PipelinesQuery),
    /// Put a request to the server.
    Perform(Request),
}

/// What the machine answers: whether the monitor is to be woken, and what to do then.
#[derive(Debug)]
pub struct Step {
    pub notify: bool,
    pub action: ThreadAction,
}

/// The thread that talks to the server.
#[derive(Debug)]
pub struct Thread {
    pub config: Config,
    /// Pipelines of which it is not known who started them; the last one is the next
    /// to ask for.
    pub pipeline_without_trigger: VecDeque<u64>,
    pub current_user: User,
    pub mode: RunMode,
    /// Requests that were taken over and wait for their turn.
    pub pending: VecDeque<Request>,
    /// Whether there is news that the monitor was not yet woken for.
    pub updated: bool,
}

/// The question for the pipelines that a mode shows.
pub open spec fn query_for(
    config: Config,
    info: PipelinesMode,
    current_user: User,
) -> PipelinesQuery {
    PipelinesQuery {
        project: config.project,
        order_by: PipelineOrder::Id,
        username: if info.all_users {
            None
        } else {
            match info.custom_username {
                Some(username) => Some(username),
                None => Some(current_user.username),
            }
        },
        sha: info.commithash,
        ref_name: info.ref_name,
        pages: Pages::Limit(info.nr_pipelines),
    }
}

/// Puts the question for the pipelines that a mode shows.
pub fn pipelines_query(config: &Config, info: &PipelinesMode, current_user: &User) -> (query:
    PipelinesQuery)
    ensures
        query == query_for(*config, *info, *current_user),
{
    PipelinesQuery {
        project: config.project.clone(),
        order_by: PipelineOrder::Id,
        username: if info.all_users {
            None
        } else {
            match &info.custom_username {
                Some(username) => Some(username.clone()),
                None => Some(current_user.username.clone()),
            }
        },
        sha: info.commithash.clone(),
        ref_name: info.ref_name.clone(),
        pages: Pages::Limit(info.nr_pipelines),
    }
}

/// What a request is called when its outcome is reported.
pub open spec fn request_title(request: Request) -> Seq<char> {
    match request {
        Request::DeletePipeline(_) => "Pipeline deletion"@,
        Request::CancelPipeline(_) => "Pipeline cancellation"@,
        Request::RetryJob(_) => "Job retry"@,
        Request::PlayJob(_) => "Job play"@,
        Request::RetryPipeline(_) => "Pipeline retry"@,
    }
}

/// How the outcome of a request is reported.
pub open spec fn outcome_text(request: Request, outcome: Result<(), String>) -> Seq<char> {
    match outcome {
        Ok(_) => request_title(request) + ": success"@,
        Err(error) => request_title(request) + ": error - "@ + error@,
    }
}

/// Reports the outcome of a request.
pub fn describe_outcome(request: Request, outcome: &Result<(), String>) -> (text: String)
    ensures
        text@ == outcome_text(request, *outcome),
{
    let title = match request {
        Request::DeletePipeline(_) => "Pipeline deletion",
        Request::CancelPipeline(_) => "Pipeline cancellation",
        Request::RetryJob(_) => "Job retry",
        Request::PlayJob(_) => "Job play",
        Request::RetryPipeline(_) => "Pipeline retry",
    };
    match outcome {
        Ok(_) => title.to_owned().concat(": success"),
        Err(error) => title.to_owned().concat(": error - ").concat(error.as_str()),
    }
}

/// Whether a request can change the list of pipelines.
pub open spec fn touches_pipelines(request: Request) -> bool {
    request is DeletePipeline || request is CancelPipeline || request is RetryPipeline
}

/// Whether a request can change the list of jobs.
pub open spec fn touches_jobs(request: Request) -> bool {
    !(request is RetryPipeline)
}

/// The IDs of `pipelines` of which `known` does not hold, the last one first.
pub open spec fn unknown_triggers(pipelines: Seq<Pipeline>, known: Set<u64>) -> Seq<u64>
    decreases pipelines.len(),
{
    if pipelines.len() == 0 {
        Seq::empty()
    } else if known.contains(pipelines.last().id) {
        unknown_triggers(pipelines.drop_last(), known)
    } else {
        seq![pipelines.last().id] + unknown_triggers(pipelines.drop_last(), known)
    }
}

/// Whether `after` and `action` are what `before` begins a turn with: it stops where
/// nothing is shown that the server knows of, and else looks up who started a
/// pipeline, where that is wanted and not known, or listens.
pub open spec fn turn_begun(before: Thread, after: Thread, action: ThreadAction) -> bool {
    match before.mode {
        RunMode::Nothing | RunMode::Help => action == ThreadAction::Stop && after == before,
        RunMode::Pipelines(info) => if info.resolve_usernames
            && before.pipeline_without_trigger@.len() > 0 {
            &&& action == ThreadAction::FetchDetails(before.pipeline_without_trigger@.last())
            &&& after.pipeline_without_trigger@ == before.pipeline_without_trigger@.drop_last()
            &&& after == Thread {
                pipeline_without_trigger: after.pipeline_without_trigger,
                ..before
            }
        } else {
            action == ThreadAction::Listen && after == before
        },
        _ => action == ThreadAction::Listen && after == before,
    }
}

/// Whether `after` and `step` are what `before` goes on with while the requests
/// `waiting` are left: the first of them is put to the server; if there is none, the
/// monitor is woken for the news of this turn, and the next turn begins.
pub open spec fn requests_continued(
    before: Thread,
    waiting: Seq<Request>,
    after: Thread,
    step: Step,
) -> bool {
    if waiting.len() > 0 {
        &&& step == Step { notify: false, action: ThreadAction::Perform(waiting[0]) }
        &&& after.pending@ == waiting.drop_first()
        &&& after == Thread { pending: after.pending, ..before }
    } else {
        &&& step.notify == before.updated
        &&& after.pending@ == waiting
        &&& turn_begun(
            Thread { updated: false, pending: after.pending, ..before },
            after,
            step.action,
        )
    }
}

impl Thread {
    /// Whether `after`, `state_after` and `step` are what the details of a pipeline leave:
    /// who started it is known, and the monitor is woken.
    pub open spec fn learned(
        self,
        state: State,
        id: u64,
        details: PipelineDetails,
        after: Thread,
        state_after: State,
        step: Step,
    ) -> bool {
        &&& after == self
        &&& state_after.pipeline_trigger@ == state.pipeline_trigger@.insert(
            id,
            details.user.username,
        )
        &&& state_after == State {
            request_count: (state.request_count + 1) as u64,
            pipeline_trigger: state_after.pipeline_trigger,
            ..state
        }
        &&& step == Step { notify: true, action: ThreadAction::Listen }
    }

    /// Whether `after`, `state_after` and `step` are what a command leaves: the data that
    /// the mode shows is fetched, if an update was asked for, and else the requests have
    /// their turn. Without a command, all is over.
    pub open spec fn obeyed(
        self,
        state: State,
        command: Option<RxCmd>,
        after: Thread,
        state_after: State,
        step: Step,
    ) -> bool {
        let mode = match command {
            Some(RxCmd::UpdateMode(mode)) => mode,
            _ => self.mode,
        };
        let obeying = Thread { mode, updated: false, ..self };
        if command is None {
            &&& step == Step { notify: false, action: ThreadAction::Stop }
            &&& after == self
            &&& state_after == state
        } else {
            match fetch_for(obeying, state) {
                Some(action) => {
                    &&& step == Step { notify: false, action }
                    &&& after == obeying
                    &&& state_after == state
                },
                None => {
                    &&& state_after.request_queue@ == Seq::<Request>::empty()
                    &&& state_after == State {
                        request_queue: state_after.request_queue,
                        ..state
                    }
                    &&& requests_continued(
                        obeying,
                        self.pending@ + state.request_queue@,
                        after,
                        step,
                    )
                },
            }
        }
    }

    /// Whether `after`, `state_after` and `step` are what the jobs of a pipeline leave:
    /// they are taken over, unless they are no longer wanted.
    pub open spec fn took_jobs(
        self,
        state: State,
        now: Instant,
        jobs: JobMap,
        after: Thread,
        state_after: State,
        step: Step,
    ) -> bool {
        let taken = state.jobs.update;
        &&& requests_continued(
            Thread { updated: self.updated || taken, ..self },
            self.pending@ + state.request_queue@,
            after,
            step,
        )
        &&& state_after.request_queue@ == Seq::<Request>::empty()
        &&& state_after == State {
            request_queue: state_after.request_queue,
            jobs: state_after.jobs,
            request_count: state_after.request_count,
            ..state
        }
        &&& if taken {
            &&& !state_after.jobs.update
            &&& state_after.jobs.data matches Some((stamp, shown)) && stamp == now && shown@
                == jobs.entries().map_values(|entry: (String, Job)| entry.1)
            &&& state_after.request_count == state.request_count + 1
        } else {
            &&& state_after.jobs == state.jobs
            &&& state_after.request_count == state.request_count
        }
    }

    /// Whether `after`, `state_after` and `step` are what the jobs of two pipelines leave:
    /// their difference is taken over, unless it is no longer wanted.
    pub open spec fn took_diff(
        self,
        state: State,
        now: Instant,
        from: JobMap,
        to: JobMap,
        after: Thread,
        state_after: State,
        step: Step,
    ) -> bool {
        let taken = state.pipediff.update;
        &&& requests_continued(
            Thread { updated: self.updated || taken, ..self },
            self.pending@ + state.request_queue@,
            after,
            step,
        )
        &&& state_after.request_queue@ == Seq::<Request>::empty()
        &&& state_after == State {
            request_queue: state_after.request_queue,
            pipediff: state_after.pipediff,
            request_count: state_after.request_count,
            ..state
        }
        &&& if taken {
            &&& !state_after.pipediff.update
            &&& state_after.pipediff.data matches Some((stamp, shown)) && stamp == now && shown@
                == merge_join(from.entries(), to.entries())
            &&& state_after.request_count == state.request_count + 1
        } else {
            &&& state_after.pipediff == state.pipediff
            &&& state_after.request_count == state.request_count
        }
    }

    /// Whether `after`, `state_after` and `step` are what a list of pipelines leaves: it is
    /// taken over, unless it is no longer wanted; either way, who started them is to be
    /// looked up, where that is not known.
    pub open spec fn took_pipelines(
        self,
        state: State,
        now: Instant,
        pipelines: Vec<Pipeline>,
        after: Thread,
        state_after: State,
        step: Step,
    ) -> bool {
        let taken = state.pipelines.update;
        &&& exists|looking: VecDeque<u64>|
            {
                &&& (#[trigger] looking@) == unknown_triggers(
                    pipelines@,
                    state.pipeline_trigger@.dom(),
                ) + self.pipeline_without_trigger@
                &&& requests_continued(
                    Thread {
                        updated: self.updated || taken,
                        pipeline_without_trigger: looking,
                        ..self
                    },
                    self.pending@ + state.request_queue@,
                    after,
                    step,
                )
            }
        &&& state_after.request_queue@ == Seq::<Request>::empty()
        &&& state_after == State {
            request_queue: state_after.request_queue,
            pipelines: state_after.pipelines,
            request_count: state_after.request_count,
            ..state
        }
        &&& if taken {
            &&& state_after.pipelines == Updatable { update: false, data: Some((now, pipelines)) }
            &&& state_after.request_count == state.request_count + 1
        } else {
            &&& state_after.pipelines == state.pipelines
            &&& state_after.request_count == state.request_count
        }
    }

    /// Whether `after`, `state_after` and `step` are what the outcome of a request leaves:
    /// it is told, and an update is asked for of what the request may have changed.
    pub open spec fn reported(
        self,
        state: State,
        now: Instant,
        request: Request,
        outcome: Result<(), String>,
        after: Thread,
        state_after: State,
        step: Step,
    ) -> bool {
        &&& requests_continued(Thread { updated: true, ..self }, self.pending@, after, step)
        &&& state_after.response matches Some((stamp, text)) && stamp == now && text@
            == outcome_text(request, outcome)
        &&& state_after == State {
            response: state_after.response,
            pipelines: Updatable {
                update: state.pipelines.update || touches_pipelines(request),
                ..state.pipelines
            },
            jobs: Updatable { update: state.jobs.update || touches_jobs(request), ..state.jobs },
            ..state
        }
    }
}

impl Thread {
    /// Starts with a mode.
    pub fn new(config: Config, current_user: User, mode: RunMode) -> (thread: Thread)
        ensures
            thread.config == config,
            thread.pipeline_without_trigger@ == Seq::<u64>::empty(),
            thread.current_user == current_user,
            thread.mode == mode,
            thread.pending@ == Seq::<Request>::empty(),
            !thread.updated,
    {
        Thread {
            config,
            pipeline_without_trigger: VecDeque::new(),
            current_user,
            mode,
            pending: VecDeque::new(),
            updated: false,
        }
    }

    /// Begins a turn.
    pub fn begin_turn(&mut self) -> (action: ThreadAction)
        ensures
            turn_begun(*old(self), *final(self), action),
    {
        let wanted = match &self.mode {
            RunMode::Nothing | RunMode::Help => {
                return ThreadAction::Stop;
            },
            RunMode::Pipelines(info) => info.resolve_usernames,
            _ => false,
        };
        if wanted && self.pipeline_without_trigger.len() > 0 {
            match self.pipeline_without_trigger.pop_back() {
                Some(id) => ThreadAction::FetchDetails(id),
                None => ThreadAction::Listen,
            }
        } else {
            ThreadAction::Listen
        }
    }

    /// Puts the next request to the server, or ends the turn.
    fn next_request(&mut self) -> (step: Step)
        ensures
            requests_continued(*old(self), old(self).pending@, *final(self), step),
    {
        if self.pending.len() > 0 {
            match self.pending.pop_front() {
                Some(request) => Step { notify: false, action: ThreadAction::Perform(request) },
                None => Step { notify: false, action: ThreadAction::Listen },
            }
        } else {
            let notify = self.updated;
            self.updated = false;
            let action = self.begin_turn();
            Step { notify, action }
        }
    }

    /// Takes over the requests that were confirmed in the meantime.
    fn take_requests(&mut self, state: &mut State) -> (step: Step)
        ensures
            final(state).request_queue@ == Seq::<Request>::empty(),
            *final(state) == (State {
                request_queue: final(state).request_queue,
                ..*old(state)
            }),
            requests_continued(
                *old(self),
                old(self).pending@ + old(state).request_queue@,
                *final(self),
                step,
            ),
    {
        self.pending.append(&mut state.request_queue);
        self.next_request()
    }

    /// Takes over who started a pipeline.
    pub fn on_details(&mut self, state: &mut State, id: u64, details: PipelineDetails) -> (step:
        Step)
        requires
            old(state).request_count < u64::MAX,
        ensures
            old(self).learned(*old(state), id, details, *final(self), *final(state), step),
    {
        state.pipeline_trigger.insert(id, details.user.username);
        state.request_count += 1;
        Step { notify: true, action: ThreadAction::Listen }
    }

    /// Goes on when no command came: the next turn begins.
    pub fn on_timeout(&mut self) -> (step: Step)
        ensures
            !step.notify,
            turn_begun(*old(self), *final(self), step.action),
    {
        let action = self.begin_turn();
        Step { notify: false, action }
    }

    /// Obeys a command: fetches the data that the mode shows, if an update was asked
    /// for, and else turns to the requests. Without a command, all is over.
    pub fn on_command(&mut self, state: &mut State, command: Option<RxCmd>) -> (step: Step)
        ensures
            old(self).obeyed(*old(state), command, *final(self), *final(state), step),
    {
        match command {
            Some(RxCmd::UpdateMode(mode)) => {
                self.mode = mode;
            },
            Some(RxCmd::Refresh) => {},
            None => {
                return Step { notify: false, action: ThreadAction::Stop };
            },
        }
        self.updated = false;
        let fetch = match &self.mode {
            RunMode::Jobs(info) => if state.jobs.update {
                let detail = if info.manual_jobs {
                    JobDetailMode::WithManual
                } else {
                    JobDetailMode::WithoutManual
                };
                Some(ThreadAction::FetchJobs(info.pipeline_id, detail))
            } else {
                None
            },
            RunMode::PipeDiff(info) => if state.pipediff.update {
                Some(ThreadAction::FetchDiff(*info))
            } else {
                None
            },
            RunMode::Pipelines(info) => if state.pipelines.update {
                Some(
                    ThreadAction::FetchPipelines(
                        pipelines_query(&self.config, info, &self.current_user),
                    ),
                )
            } else {
                None
            },
            _ => None,
        };
        match fetch {
            Some(action) => Step { notify: false, action },
            None => self.take_requests(state),
        }
    }

    /// Takes over the jobs of a pipeline, unless they are no longer wanted.
    pub fn on_jobs(&mut self, state: &mut State, now: Instant, jobs: &JobMap) -> (step: Step)
        requires
            old(state).request_count < u64::MAX,
        ensures
            old(self).took_jobs(*old(state), now, *jobs, *final(self), *final(state), step),
    {
        if state.jobs.update {
            state.jobs.data = Some((now, jobs.values()));
            state.request_count += 1;
            self.updated = true;
            state.jobs.updated();
        }
        self.take_requests(state)
    }

    /// Takes over the difference between two pipelines, unless it is no longer wanted.
    pub fn on_diff(&mut self, state: &mut State, now: Instant, from: JobMap, to: JobMap) -> (step:
        Step)
        requires
            old(state).request_count < u64::MAX,
        ensures
            old(self).took_diff(*old(state), now, from, to, *final(self), *final(state), step),
    {
        if state.pipediff.update {
            state.pipediff.data = Some((now, diff_jobs(from, to)));
            state.request_count += 1;
            self.updated = true;
            state.pipediff.updated();
        }
        self.take_requests(state)
    }

    /// Takes over a list of pipelines, unless it is no longer wanted; either way, who
    /// started them is to be looked up, where that is not known.
    pub fn on_pipelines(&mut self, state: &mut State, now: Instant, pipelines: Vec<Pipeline>) -> (step:
        Step)
        requires
            old(state).request_count < u64::MAX,
        ensures
            old(self).took_pipelines(
                *old(state),
                now,
                pipelines,
                *final(self),
                *final(state),
                step,
            ),
    {
        let ghost known = state.pipeline_trigger@.dom();
        let ghost before = *self;
        let mut i: usize = 0;
        assert(pipelines@.take(0) =~= Seq::<Pipeline>::empty());
        while i < pipelines.len()
            invariant
                i <= pipelines.len(),
                known == state.pipeline_trigger@.dom(),
                self.pipeline_without_trigger@ =~= unknown_triggers(
                    pipelines@.take(i as int),
                    known,
                ) + before.pipeline_without_trigger@,
                *self == (Thread {
                    pipeline_without_trigger: self.pipeline_without_trigger,
                    ..before
                }),
                *state == *old(state),
            decreases pipelines.len() - i,
        {
            assert(pipelines@.take(i + 1).drop_last() =~= pipelines@.take(i as int));
            let id = pipelines[i].id;
            if !state.pipeline_trigger.contains_key(&id) {
                self.pipeline_without_trigger.push_front(id);
            }
            i += 1;
        }
        assert(pipelines@.take(i as int) =~= pipelines@);
        let ghost looking = self.pipeline_without_trigger;
        assert(looking@ =~= unknown_triggers(pipelines@, known) + before.pipeline_without_trigger@);
        if state.pipelines.update {
            state.pipelines.data = Some((now, pipelines));
            state.request_count += 1;
            self.updated = true;
            state.pipelines.updated();
        }
        self.take_requests(state)
    }

    /// Takes note of how a request went, and asks for an update of what it may have
    /// changed.
    pub fn on_performed(
        &mut self,
        state: &mut State,
        now: Instant,
        request: Request,
        outcome: &Result<(), String>,
    ) -> (step: Step)
        ensures
            old(self).reported(
                *old(state),
                now,
                request,
                *outcome,
                *final(self),
                *final(state),
                step,
            ),
    {
        match request {
            Request::DeletePipeline(_) => {
                state.pipelines.update = true;
                state.jobs.update = true;
            },
            Request::CancelPipeline(_) => {
                state.pipelines.update = true;
                state.jobs.update = true;
            },
            Request::RetryJob(_) => {
                state.jobs.update = true;
            },
            Request::PlayJob(_) => {
                state.jobs.update = true;
            },
            Request::RetryPipeline(_) => {
                state.pipelines.update = true;
            },
        }
        state.response = Some((now, describe_outcome(request, outcome)));
        self.updated = true;
        self.next_request()
    }
}

/// What is fetched for the mode of `thread`, if an update of that was asked for.
pub open spec fn fetch_for(thread: Thread, state: State) -> Option<ThreadAction> {
    match thread.mode {
        RunMode::Jobs(info) => if state.jobs.update {
            Some(
                ThreadAction::FetchJobs(
                    info.pipeline_id,
                    if info.manual_jobs {
                        JobDetailMode::WithManual
                    } else {
                        JobDetailMode::WithoutManual
                    },
                ),
            )
        } else {
            None
        },
        RunMode::PipeDiff(info) => if state.pipediff.update {
            Some(ThreadAction::FetchDiff(info))
        } else {
            None
        },
        RunMode::Pipelines(info) => if state.pipelines.update {
            Some(
                ThreadAction::FetchPipelines(
                    query_for(thread.config, info, thread.current_user),
                ),
            )
        } else {
            None
        },
        _ => None,
    }
}

} // verus!
