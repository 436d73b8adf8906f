//! Finding the pipeline whose jobs are shown, as a machine: it tells what to do next, and
//! is told what came of it.

use crate::error::Error;
use crate::model::Pipeline;
use crate::modes::{AliasJobsMode, JobsMode, RunMode};
#[allow(unused_imports)]
use crate::text::decimal;
use crate::text::{decimal_text, same_text};
#[allow(unused_imports)]
use crate::timestamp::whole_seconds_between;
use crate::timestamp::Timestamp;
use vstd::prelude::*;

verus! {

/// How many milliseconds lie between two looks for a new pipeline.
pub const ALIAS_MILLIS: u64 = 1000;

/// How many pipelines are asked for.
pub const ALIAS_LIMIT: usize = 1;

/// What there is to do.
#[derive(Debug)]
pub enum AliasAction {
    /// Ask for the newest pipeline of the remote branch of the current one.
    Fetch,
    /// Wait for so many milliseconds, and look again.
    Sleep(u64),
    /// Show this.
    Done(RunMode),
    /// Give up.
    Fail(Error),
}

/// What the machine answers: what to print, and what to do then.
#[derive(Debug)]
pub struct AliasStep {
    pub message: Option<String>,
    pub action: AliasAction,
}

/// Finds the pipeline whose jobs are shown.
#[derive(Debug)]
pub struct AliasJob {
    pub info: AliasJobsMode,
    /// Whether it was told that a new pipeline is waited for.
    pub announced: bool,
}

/// The jobs of a pipeline, without the manual ones.
pub open spec fn jobs_of(pipeline_id: u64) -> RunMode {
    RunMode::Jobs(JobsMode { pipeline_id, manual_jobs: false })
}

/// Whether a pipeline is not the new one that is waited for: it is too old, or runs on
/// another commit. The age counts where both are given.
pub open spec fn is_outdated(info: AliasJobsMode, pipeline: Pipeline, now: (i64, u32, i32)) -> bool {
    match (info.wait_by_creation_time, info.wait_by_githash) {
        (Some(max), _) => whole_seconds_between(
            pipeline.created_at@.0,
            pipeline.created_at@.1,
            now.0,
            now.1,
        ) >= max,
        (None, Some(hash)) => pipeline.sha@ != hash@,
        (None, None) => false,
    }
}

/// Whether a new pipeline is waited for, and is not there yet.
pub open spec fn waits_on(
    info: AliasJobsMode,
    pipelines: Seq<Pipeline>,
    now: (i64, u32, i32),
) -> bool {
    &&& info.wait_by_creation_time is Some || info.wait_by_githash is Some
    &&& pipelines.len() == 0 || is_outdated(info, pipelines[0], now)
}

/// What is printed while a new pipeline is waited for.
pub open spec fn waiting_text(info: AliasJobsMode) -> Seq<char> {
    "glim: waiting for a new pipeline to be created"@ + match (
        info.wait_by_creation_time,
        info.wait_by_githash,
    ) {
        (Some(max), _) => " (no older than "@ + decimal(max as nat) + " seconds)"@,
        (None, Some(hash)) => " (of githash "@ + hash@ + ")"@,
        (None, None) => ""@,
    }
}

impl AliasJob {
    /// Whether `after` and `step` are what the newest pipelines of the branch lead to, as
    /// they are at the time `now`.
    pub open spec fn went_on(
        self,
        pipelines: Seq<Pipeline>,
        now: (i64, u32, i32),
        after: AliasJob,
        step: AliasStep,
    ) -> bool {
        if waits_on(self.info, pipelines, now) {
            &&& after == AliasJob { announced: true, ..self }
            &&& step.action == AliasAction::Sleep(ALIAS_MILLIS)
            &&& match step.message {
                Some(text) => !self.announced && text@ == waiting_text(self.info),
                None => self.announced,
            }
        } else {
            &&& after == self
            &&& step.message is None
            &&& step.action == if pipelines.len() > 0 {
                AliasAction::Done(jobs_of(pipelines.last().id))
            } else {
                AliasAction::Fail(Error::NoPipelineFound)
            }
        }
    }

    /// Starts to look for a pipeline.
    pub fn new(info: AliasJobsMode) -> (alias: AliasJob)
        ensures
            alias == (AliasJob { info, announced: false }),
    {
        AliasJob { info, announced: false }
    }

    /// What to do at the start: nothing is looked for, where a pipeline is given.
    pub fn start(&self) -> (action: AliasAction)
        ensures
            action == match self.info.pipeline_id {
                Some(id) => AliasAction::Done(jobs_of(id)),
                None => AliasAction::Fetch,
            },
    {
        match self.info.pipeline_id {
            Some(pipeline_id) => AliasAction::Done(
                RunMode::Jobs(JobsMode { pipeline_id, manual_jobs: false }),
            ),
            None => AliasAction::Fetch,
        }
    }

    /// Goes on with the newest pipelines of the branch, as they are at the time `now`.
    pub fn on_pipelines(&mut self, pipelines: &Vec<Pipeline>, now: &Timestamp) -> (step: AliasStep)
        ensures
            old(self).went_on(pipelines@, now@, *final(self), step),
    {
        if self.info.wait_by_creation_time.is_some() || self.info.wait_by_githash.is_some() {
            let missing = pipelines.len() == 0 || self.outdated(&pipelines[0], now);
            if missing {
                let message = if self.announced {
                    None
                } else {
                    Some(self.waiting_message())
                };
                self.announced = true;
                return AliasStep { message, action: AliasAction::Sleep(ALIAS_MILLIS) };
            }
        }
        let count = pipelines.len();
        let action = if count > 0 {
            AliasAction::Done(
                RunMode::Jobs(
                    JobsMode { pipeline_id: pipelines[count - 1].id, manual_jobs: false },
                ),
            )
        } else {
            AliasAction::Fail(Error::NoPipelineFound)
        };
        AliasStep { message: None, action }
    }

    fn outdated(&self, pipeline: &Pipeline, now: &Timestamp) -> (outdated: bool)
        ensures
            outdated == is_outdated(self.info, *pipeline, now@),
    {
        match (&self.info.wait_by_creation_time, &self.info.wait_by_githash) {
            (Some(max), _) => {
                let age: i64 = pipeline.created_at.seconds_until(now);
                age >= 0 && age as u64 >= *max
            },
            (None, Some(hash)) => !same_text(pipeline.sha.as_str(), hash.as_str()),
            (None, None) => false,
        }
    }

    fn waiting_message(&self) -> (text: String)
        ensures
            text@ == waiting_text(self.info),
    {
        let kind = match (&self.info.wait_by_creation_time, &self.info.wait_by_githash) {
            (Some(max), _) => " (no older than ".to_owned().concat(
                decimal_text(*max).as_str(),
            ).concat(" seconds)"),
            (None, Some(hash)) => " (of githash ".to_owned().concat(hash.as_str()).concat(")"),
            (None, None) => "".to_owned(),
        };
        "glim: waiting for a new pipeline to be created".to_owned().concat(kind.as_str())
    }
}

} // verus!
