//! What the monitor draws, and what it reports when nobody looks on.

#[allow(unused_imports)]
use crate::diff::change_report;
use crate::diff::{report_changes, shown_diffs, JobDiff};
use crate::model::{clone_jobs, clone_pipelines, Job, Pipeline, Request};
use crate::modes::RunMode;
use crate::monitor::Main;
#[allow(unused_imports)]
use crate::screen::{
    is_confirmation, is_diff_table, is_jobs_table, is_pipelines_table, longest_ref, status_text,
    visible,
};
use crate::screen::{
    confirmation, diff_table, jobs_table, pipelines_table, visible_pipelines, Confirmation, Table,
};
use crate::state::State;
#[allow(unused_imports)]
use crate::text::{decimal, padded_left, padded_right, views};
use crate::text::{decimal_text, pad_left, pad_right};
use vstd::prelude::*;
#[allow(unused_imports)]
use vstd::utf8::{decode_utf8, encode_utf8, encode_utf8_decode_utf8, is_char_boundary};

verus! {

/// What is on the screen.
#[derive(Debug)]
pub enum Screen {
    /// Nothing.
    Blank,
    /// The keys, and what they do.
    Help,
    /// Pipelines, and a question over them.
    Pipelines(Table, Option<Confirmation>),
    /// Jobs, and a question over them.
    Jobs(Table, Option<Confirmation>),
    /// The difference between two pipelines.
    PipeDiff(Table),
}

/// What is shown under all questions.
pub open spec fn innermost(mode: RunMode) -> RunMode
    decreases mode,
{
    match mode {
        RunMode::Modal(_, under) => innermost(*under),
        _ => mode,
    }
}

/// The request that is asked about right over what is shown, if there is one.
pub open spec fn question(mode: RunMode) -> Option<Request>
    decreases mode,
{
    match mode {
        RunMode::Modal(request, under) => match question(*under) {
            Some(nearer) => Some(nearer),
            None => Some(request),
        },
        _ => None,
    }
}

/// Whether a question is the one that belongs over a mode.
pub open spec fn asks(shown: Option<Confirmation>, mode: RunMode) -> bool {
    match (shown, question(mode)) {
        (Some(shown), Some(request)) => is_confirmation(shown, request),
        (None, None) => true,
        _ => false,
    }
}

fn look_under(mode: &RunMode) -> (found: (&RunMode, Option<Request>))
    ensures
        *found.0 == innermost(*mode),
        found.1 == question(*mode),
        !(*found.0 is Modal),
    decreases mode,
{
    match mode {
        RunMode::Modal(request, under) => {
            let (shown, nearer) = look_under(&**under);
            match nearer {
                Some(nearer) => (shown, Some(nearer)),
                None => (shown, Some(*request)),
            }
        },
        _ => (mode, None),
    }
}

fn ask(request: Option<Request>) -> (shown: Option<Confirmation>)
    ensures
        match (shown, request) {
            (Some(shown), Some(request)) => is_confirmation(shown, request),
            (None, None) => true,
            _ => false,
        },
{
    match request {
        Some(request) => Some(confirmation(request)),
        None => None,
    }
}

impl Main {
    /// Whether `after` and `screen` are what drawing leaves: what is selected is moved
    /// to where it can be, and what is shown is taken note of.
    pub open spec fn drew(self, state: State, after: Main, screen: Screen) -> bool {
        let line = status_text(self.auto_refresh, state.response_text());
        match innermost(self.mode) {
            RunMode::Pipelines(info) => {
                let all = state.pipelines.items();
                &&& after.pipelines@ == visible(all, self.ignored_pipeline_ids@)
                &&& after == Main {
                    selected_pipeline: state.pipelines.fixed(
                        self.selected_pipeline,
                        Some(self.pipelines.len()),
                    ),
                    pipelines: after.pipelines,
                    ..self
                }
                &&& screen matches Screen::Pipelines(table, shown)
                &&& is_pipelines_table(
                    table,
                    info,
                    after.pipelines@,
                    longest_ref(all),
                    state.pipeline_trigger@,
                    self.pipelines_select_for_diff,
                    self.current_user,
                    line,
                )
                &&& asks(shown, self.mode)
            },
            RunMode::Jobs(_) => {
                &&& after.jobs@ == state.jobs.items()
                &&& after == Main {
                    selected_job: state.jobs.fixed(self.selected_job, None),
                    jobs: after.jobs,
                    ..self
                }
                &&& screen matches Screen::Jobs(table, shown)
                &&& is_jobs_table(table, after.jobs@, line)
                &&& asks(shown, self.mode)
            },
            RunMode::PipeDiff(info) => {
                &&& after.pipediffs@ == state.pipediff.items().filter(
                    |d: JobDiff| d.shown(self.pipediff_hide_unchanged),
                )
                &&& after == Main {
                    selected_job: state.pipediff.fixed(self.selected_job, None),
                    pipediffs: after.pipediffs,
                    ..self
                }
                &&& screen matches Screen::PipeDiff(table)
                &&& is_diff_table(table, info, after.pipediffs@, line)
            },
            RunMode::Help => after == self && screen == Screen::Help,
            _ => after == self && screen == Screen::Blank,
        }
    }

    /// Draws what is shown.
    pub fn draw(&mut self, state: &State) -> (screen: Screen)
        ensures
            old(self).drew(*state, *final(self), screen),
    {
        let line = state.status_line(self.auto_refresh);
        let (shown, request) = look_under(&self.mode);
        match shown {
            RunMode::Pipelines(info) => {
                let all: Vec<Pipeline> = Vec::new();
                let all = match &state.pipelines.data {
                    Some((_, pipelines)) => pipelines,
                    None => &all,
                };
                assert(all@ =~= state.pipelines.items());
                let visible = visible_pipelines(all, &self.ignored_pipeline_ids);
                let table = pipelines_table(
                    info,
                    all,
                    &visible,
                    &state.pipeline_trigger,
                    &self.pipelines_select_for_diff,
                    &self.current_user,
                    line,
                );
                let known = self.pipelines.len();
                state.pipelines.fix_selected(&mut self.selected_pipeline, Some(known));
                self.pipelines = visible;
                Screen::Pipelines(table, ask(request))
            },
            RunMode::Jobs(_) => {
                let jobs: Vec<Job> = match &state.jobs.data {
                    Some((_, jobs)) => clone_jobs(jobs),
                    None => Vec::new(),
                };
                assert(jobs@ =~= state.jobs.items());
                let table = jobs_table(&jobs, line);
                state.jobs.fix_selected(&mut self.selected_job, None);
                self.jobs = jobs;
                Screen::Jobs(table, ask(request))
            },
            RunMode::PipeDiff(info) => {
                let all: Vec<JobDiff> = Vec::new();
                let all = match &state.pipediff.data {
                    Some((_, diffs)) => diffs,
                    None => &all,
                };
                assert(all@ =~= state.pipediff.items());
                let diffs = shown_diffs(all, self.pipediff_hide_unchanged);
                let table = diff_table(*info, &diffs, line);
                state.pipediff.fix_selected(&mut self.selected_job, None);
                self.pipediffs = diffs;
                Screen::PipeDiff(table)
            },
            RunMode::Help => Screen::Help,
            _ => Screen::Blank,
        }
    }
}

/// A report for nobody who looks on.
#[derive(Debug)]
pub enum Report {
    /// There is nothing to report yet.
    Pending,
    /// These lines, and then all is over.
    Lines(Vec<String>),
    /// These pipelines, as a line of JSON each, and then all is over.
    Json(Vec<Pipeline>),
}

/// How many bytes of a commit's hash are reported.
pub const SHORT_SHA: usize = 12;

/// Whether the hash of a commit can be cut to its reported length.
pub open spec fn has_short_sha(pipeline: Pipeline) -> bool {
    is_char_boundary(encode_utf8(pipeline.sha@), SHORT_SHA as int)
}

/// The line that reports a pipeline: its ID, its status, the beginning of its commit's
/// hash, and its page.
pub open spec fn pipeline_line(pipeline: Pipeline) -> Seq<char> {
    padded_left(decimal(pipeline.id as nat), 9) + "  "@ + padded_right(pipeline.status@, 10)
        + " "@ + decode_utf8(encode_utf8(pipeline.sha@).subrange(0, SHORT_SHA as int)) + "  "@
        + pipeline.web_url@
}

fn line_of_pipeline(pipeline: &Pipeline) -> (line: String)
    requires
        has_short_sha(*pipeline),
    ensures
        line@ == pipeline_line(*pipeline),
{
    let (sha, _) = pipeline.sha.as_str().split_at(SHORT_SHA);
    proof {
        encode_utf8_decode_utf8(sha@);
    }
    pad_left(decimal_text(pipeline.id).as_str(), 9).concat("  ").concat(
        pad_right(pipeline.status.as_str(), 10).as_str(),
    ).concat(" ").concat(sha).concat("  ").concat(pipeline.web_url.as_str())
}

/// Reports pipelines, one line each.
pub fn report_pipelines(pipelines: &Vec<Pipeline>) -> (lines: Vec<String>)
    requires
        forall|i: int| 0 <= i < pipelines@.len() ==> has_short_sha(#[trigger] pipelines@[i]),
    ensures
        views(lines@) == pipelines@.map_values(|p: Pipeline| pipeline_line(p)),
{
    let mut lines: Vec<String> = Vec::new();
    let mut i: usize = 0;
    while i < pipelines.len()
        invariant
            i <= pipelines.len(),
            forall|i: int| 0 <= i < pipelines@.len() ==> has_short_sha(#[trigger] pipelines@[i]),
            views(lines@) =~= pipelines@.take(i as int).map_values(
                |p: Pipeline| pipeline_line(p),
            ),
        decreases pipelines.len() - i,
    {
        let ghost before = lines@;
        let line = line_of_pipeline(&pipelines[i]);
        lines.push(line);
        assert(views(lines@) =~= views(before).push(line@));
        i += 1;
    }
    assert(pipelines@.take(i as int) =~= pipelines@);
    lines
}

/// The line that reports a job: its ID, its status and its name.
pub open spec fn job_line(job: Job) -> Seq<char> {
    padded_left(decimal(job.id as nat), 9) + "  "@ + padded_right(job.status@, 10) + " "@
        + job.name@
}

/// Reports jobs, one line each.
pub fn report_jobs(jobs: &Vec<Job>) -> (lines: Vec<String>)
    ensures
        views(lines@) == jobs@.map_values(|job: Job| job_line(job)),
{
    let mut lines: Vec<String> = Vec::new();
    let mut i: usize = 0;
    while i < jobs.len()
        invariant
            i <= jobs.len(),
            views(lines@) =~= jobs@.take(i as int).map_values(|job: Job| job_line(job)),
        decreases jobs.len() - i,
    {
        let ghost before = lines@;
        let job = &jobs[i];
        let line = pad_left(decimal_text(job.id).as_str(), 9).concat("  ").concat(
            pad_right(job.status.as_str(), 10).as_str(),
        ).concat(" ").concat(job.name.as_str());
        lines.push(line);
        assert(views(lines@) =~= views(before).push(line@));
        i += 1;
    }
    assert(jobs@.take(i as int) =~= jobs@);
    lines
}

impl Main {
    /// Whether a report can be made: the hash of each pipeline that is reported as a
    /// line can be cut to its reported length.
    pub open spec fn reportable(self, state: State) -> bool {
        self.mode is Pipelines && !self.json_output ==> forall|i: int|
            0 <= i < state.pipelines.items().len() ==> has_short_sha(
                #[trigger] state.pipelines.items()[i],
            )
    }

    /// Tells whether a report can be made.
    pub fn can_report(&self, state: &State) -> (can: bool)
        ensures
            can == self.reportable(*state),
    {
        let lines = match &self.mode {
            RunMode::Pipelines(_) => !self.json_output,
            _ => false,
        };
        if lines {
            if let Some((_, pipelines)) = &state.pipelines.data {
                let mut i: usize = 0;
                while i < pipelines.len()
                    invariant
                        i <= pipelines.len(),
                        state.pipelines.items() == pipelines@,
                        self.mode is Pipelines && !self.json_output,
                        forall|j: int| 0 <= j < i ==> has_short_sha(#[trigger] pipelines@[j]),
                    decreases pipelines.len() - i,
                {
                    if !pipelines[i].sha.as_str().is_char_boundary(SHORT_SHA) {
                        assert(!has_short_sha(state.pipelines.items()[i as int]));
                        return false;
                    }
                    i += 1;
                }
            }
        }
        true
    }

    /// Whether `report` is what there is to report, once there is data: the jobs, those
    /// whose status changed between two pipelines, or the pipelines.
    pub open spec fn reported(self, state: State, report: Report) -> bool {
        match self.mode {
            RunMode::Jobs(_) => match state.jobs.data {
                Some((_, jobs)) => report matches Report::Lines(lines) && views(lines@)
                    == jobs@.map_values(|job: Job| job_line(job)),
                None => report is Pending,
            },
            RunMode::PipeDiff(_) => match state.pipediff.data {
                Some((_, diffs)) => report matches Report::Lines(lines) && views(lines@)
                    == change_report(diffs@),
                None => report is Pending,
            },
            RunMode::Pipelines(_) => match state.pipelines.data {
                Some((_, pipelines)) => if self.json_output {
                    report matches Report::Json(reported) && reported@ == pipelines@
                } else {
                    report matches Report::Lines(lines) && views(lines@) == pipelines@.map_values(
                        |p: Pipeline| pipeline_line(p),
                    )
                },
                None => report is Pending,
            },
            _ => report is Pending,
        }
    }

    /// Reports what there is to report.
    pub fn check_report_non_interactive(&self, state: &State) -> (report: Report)
        requires
            self.reportable(*state),
        ensures
            self.reported(*state, report),
    {
        match &self.mode {
            RunMode::Jobs(_) => match &state.jobs.data {
                Some((_, jobs)) => Report::Lines(report_jobs(jobs)),
                None => Report::Pending,
            },
            RunMode::PipeDiff(_) => match &state.pipediff.data {
                Some((_, diffs)) => Report::Lines(report_changes(diffs)),
                None => Report::Pending,
            },
            RunMode::Pipelines(_) => match &state.pipelines.data {
                Some((_, pipelines)) => if self.json_output {
                    Report::Json(clone_pipelines(pipelines))
                } else {
                    proof {
                        assert forall|i: int| 0 <= i < pipelines@.len() implies has_short_sha(
                            #[trigger] pipelines@[i],
                        ) by {
                            assert(has_short_sha(state.pipelines.items()[i]));
                        }
                    }
                    Report::Lines(report_pipelines(pipelines))
                },
                None => Report::Pending,
            },
            _ => Report::Pending,
        }
    }
}

} // verus!
