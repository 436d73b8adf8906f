//! What the monitor shows, and the command lines that ask for it.

use crate::model::Request;
use vstd::prelude::*;

verus! {

/// A list of pipelines.
#[derive(Debug)]
pub struct PipelinesMode {
    /// Show the pipelines of all users, not only those of one.
    pub all_users: bool,
    /// The user whose pipelines are shown, where it is not the one of the API key.
    pub custom_username: Option<String>,
    /// Number of pipelines to fetch.
    pub nr_pipelines: usize,
    /// Look up who started each pipeline.
    pub resolve_usernames: bool,
    /// The branch whose pipelines are shown; all branches, where it is missing.
    pub ref_name: Option<String>,
    /// The commit whose pipelines are shown.
    pub commithash: Option<String>,
}

impl Clone for PipelinesMode {
    fn clone(&self) -> (copy: Self)
        ensures
            copy == *self,
    {
        PipelinesMode {
            all_users: self.all_users,
            custom_username: self.custom_username.clone(),
            nr_pipelines: self.nr_pipelines,
            resolve_usernames: self.resolve_usernames,
            ref_name: self.ref_name.clone(),
            commithash: self.commithash.clone(),
        }
    }
}

/// The jobs of a pipeline.
#[derive(Debug, Clone, Copy, PartialEq, Eq, Structural)]
pub struct JobsMode {
    pub pipeline_id: u64,
    pub manual_jobs: bool,
}

/// The difference between the jobs of two pipelines.
#[derive(Debug, Clone, Copy, PartialEq, Eq, Structural)]
pub struct PipeDiff {
    pub from: u64,
    pub to: u64,
}

/// What the monitor shows.
#[derive(Debug)]
pub enum RunMode {
    Pipelines(PipelinesMode),
    PipeDiff(PipeDiff),
    Jobs(JobsMode),
    /// A request that waits for its confirmation, over what was shown before.
    Modal(Request, Box<RunMode>),
    Help,
    Nothing,
}

impl Clone for RunMode {
    fn clone(&self) -> (copy: Self)
        ensures
            copy == *self,
        decreases self,
    {
        match self {
            RunMode::Pipelines(info) => RunMode::Pipelines(info.clone()),
            RunMode::PipeDiff(info) => RunMode::PipeDiff(*info),
            RunMode::Jobs(info) => RunMode::Jobs(*info),
            RunMode::Modal(request, under) => RunMode::Modal(
                *request,
                Box::new((&**under).clone()),
            ),
            RunMode::Help => RunMode::Help,
            RunMode::Nothing => RunMode::Nothing,
        }
    }
}

/// What the monitor tells the thread that talks to the server.
#[derive(Debug)]
pub enum RxCmd {
    Refresh,
    UpdateMode(RunMode),
}

/// `jobs`, as a command whose pipeline follows from the repository.
#[derive(Debug)]
pub struct AliasJobsMode {
    /// Use a specific pipeline number.
    pub pipeline_id: Option<u64>,
    /// Wait for a new pipeline to be created, no older than given seconds.
    pub wait_by_creation_time: Option<u64>,
    /// Wait for a new pipeline to be created, of the given hash.
    pub wait_by_githash: Option<String>,
}

/// `pipelines`, as a command whose branch follows from the repository.
#[derive(Debug)]
pub struct AliasPipelines {
    /// Pipelines of all branches instead of the current one.
    pub all_refs: bool,
    /// Pipelines of a specific branch.
    pub specific_ref: Option<String>,
    /// Pipelines of a specific commit.
    pub specific_commithash: Option<String>,
    /// Everyone's pipelines.
    pub everyone: bool,
    /// A user to show instead of the one of the API key.
    pub custom_username: Option<String>,
    /// Number of pipelines to fetch.
    pub nr_pipelines: usize,
}

/// Commands that depend on the state of the repository.
#[derive(Debug)]
pub enum AliasCommands {
    Jobs(AliasJobsMode),
    Pipelines(AliasPipelines),
}

/// A report on the last two pipelines of a branch.
#[derive(Debug)]
pub struct TwoPipelinesReports {
    pub ref_name: String,
}

/// Reports that are written to a file.
#[derive(Debug)]
pub enum ReportCommands {
    TwoPipelinesReports(TwoPipelinesReports),
}

/// Which merge requests to list.
#[derive(Debug)]
pub enum MergeRequestsOptions {
    ByPipelineId { pipeline_id: u64 },
}

/// What to wait for.
#[derive(Debug)]
pub enum WaitOptions {
    Pipeline {
        id: u64,
        /// Job names that match this regex and fail let a running pipeline count as
        /// failed.
        strict_jobs: Option<String>,
        /// Write more on what is running, in markdown.
        markdown: bool,
    },
}

/// A command line.
#[derive(Debug)]
pub enum CommandMode {
    Pipelines(PipelinesMode),
    PipeDiff(PipeDiff),
    Jobs(JobsMode),
    Wait(WaitOptions),
    MergeRequests(MergeRequestsOptions),
    FromAlias(AliasCommands),
    FromReport(ReportCommands),
}

} // verus!
