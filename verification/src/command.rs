//! From a command line to what the monitor shows.

use crate::config::Config;
use crate::error::Error;
use crate::jobs::JobMap;
use crate::model::{MergeRequestResult, Pipeline};
use crate::modes::{
    AliasCommands, AliasJobsMode, AliasPipelines, CommandMode, MergeRequestsOptions, PipelinesMode,
    ReportCommands, RunMode, TwoPipelinesReports, WaitOptions,
};
use crate::query::{Pages, PipelineOrder, PipelinesQuery};
#[allow(unused_imports)]
use crate::text::views;
use vstd::prelude::*;

verus! {

/// What a command line asks for.
#[derive(Debug)]
pub enum Plan {
    /// To show something.
    Show(RunMode),
    /// To show the jobs of a pipeline that is still to be found.
    FindJobs(AliasJobsMode),
    /// To show the pipelines of a branch that is still to be found.
    FindPipelines(AliasPipelines),
    /// To compare the last two pipelines of a branch in a report, and to show nothing.
    Compare(TwoPipelinesReports),
    /// To wait, and to show nothing.
    Wait(WaitOptions),
    /// To list merge requests, and to show nothing.
    ListMergeRequests(MergeRequestsOptions),
}

/// What a command line asks for.
pub open spec fn plan_of(mode: CommandMode) -> Plan {
    match mode {
        CommandMode::Pipelines(info) => Plan::Show(RunMode::Pipelines(info)),
        CommandMode::PipeDiff(info) => Plan::Show(RunMode::PipeDiff(info)),
        CommandMode::Jobs(info) => Plan::Show(RunMode::Jobs(info)),
        CommandMode::Wait(opts) => Plan::Wait(opts),
        CommandMode::MergeRequests(opts) => Plan::ListMergeRequests(opts),
        CommandMode::FromAlias(AliasCommands::Jobs(info)) => Plan::FindJobs(info),
        CommandMode::FromAlias(AliasCommands::Pipelines(info)) => Plan::FindPipelines(info),
        CommandMode::FromReport(ReportCommands::TwoPipelinesReports(info)) => Plan::Compare(info),
    }
}

/// Finds out what a command line asks for.
pub fn plan_command(mode: CommandMode) -> (plan: Plan)
    ensures
        plan == plan_of(mode),
{
    match mode {
        CommandMode::Pipelines(info) => Plan::Show(RunMode::Pipelines(info)),
        CommandMode::PipeDiff(info) => Plan::Show(RunMode::PipeDiff(info)),
        CommandMode::Jobs(info) => Plan::Show(RunMode::Jobs(info)),
        CommandMode::Wait(opts) => Plan::Wait(opts),
        CommandMode::MergeRequests(opts) => Plan::ListMergeRequests(opts),
        CommandMode::FromAlias(AliasCommands::Jobs(info)) => Plan::FindJobs(info),
        CommandMode::FromAlias(AliasCommands::Pipelines(info)) => Plan::FindPipelines(info),
        CommandMode::FromReport(ReportCommands::TwoPipelinesReports(info)) => Plan::Compare(info),
    }
}

/// Where a branch is taken from.
#[derive(Debug)]
pub enum BranchSource {
    /// There is none.
    NoBranch,
    /// From the command line.
    Given(String),
    /// From the repository: the remote branch of the current one.
    Repository,
}

/// Where the branch is taken from whose pipelines are shown: nowhere, where a commit is
/// given.
pub open spec fn branch_source_of(info: AliasPipelines) -> BranchSource {
    match (info.specific_commithash, info.specific_ref) {
        (Some(_), _) => BranchSource::NoBranch,
        (None, Some(branch)) => BranchSource::Given(branch),
        (None, None) => BranchSource::Repository,
    }
}

/// Finds out where the branch is taken from whose pipelines are shown.
pub fn branch_source(info: &AliasPipelines) -> (source: BranchSource)
    ensures
        source == branch_source_of(*info),
{
    if info.specific_commithash.is_some() {
        BranchSource::NoBranch
    } else {
        match &info.specific_ref {
            Some(branch) => BranchSource::Given(branch.clone()),
            None => BranchSource::Repository,
        }
    }
}

/// What is shown of a branch: the pipelines of everyone, on the branch that was asked for
/// or else on all of them, or those of one user, on the branch that was found. Where all
/// branches were asked for, no branch counts.
pub open spec fn pipelines_of(info: AliasPipelines, branch: Option<String>) -> PipelinesMode {
    if info.everyone {
        PipelinesMode {
            all_users: true,
            custom_username: None,
            nr_pipelines: info.nr_pipelines,
            resolve_usernames: true,
            ref_name: if info.all_refs {
                None
            } else {
                info.specific_ref
            },
            commithash: info.specific_commithash,
        }
    } else {
        PipelinesMode {
            all_users: false,
            custom_username: info.custom_username,
            nr_pipelines: info.nr_pipelines,
            resolve_usernames: false,
            ref_name: if info.all_refs {
                None
            } else {
                branch
            },
            commithash: info.specific_commithash,
        }
    }
}

/// Shows the pipelines of a branch that was found.
pub fn alias_pipelines(info: AliasPipelines, branch: Option<String>) -> (mode: RunMode)
    ensures
        mode == RunMode::Pipelines(pipelines_of(info, branch)),
{
    if info.everyone {
        RunMode::Pipelines(
            PipelinesMode {
                all_users: true,
                custom_username: None,
                nr_pipelines: info.nr_pipelines,
                resolve_usernames: true,
                ref_name: if info.all_refs {
                    None
                } else {
                    info.specific_ref
                },
                commithash: info.specific_commithash,
            },
        )
    } else {
        RunMode::Pipelines(
            PipelinesMode {
                all_users: false,
                custom_username: info.custom_username,
                nr_pipelines: info.nr_pipelines,
                resolve_usernames: false,
                ref_name: if info.all_refs {
                    None
                } else {
                    branch
                },
                commithash: info.specific_commithash,
            },
        )
    }
}

/// The question for the newest pipelines of a branch, whoever started them.
pub open spec fn newest_query(config: Config, branch: String, limit: usize) -> PipelinesQuery {
    PipelinesQuery {
        project: config.project,
        order_by: PipelineOrder::Id,
        username: None,
        sha: None,
        ref_name: Some(branch),
        pages: Pages::Limit(limit),
    }
}

/// Asks for the newest pipelines of a branch, whoever started them.
pub fn newest_on_branch(config: &Config, branch: String, limit: usize) -> (query: PipelinesQuery)
    ensures
        query == newest_query(*config, branch, limit),
{
    PipelinesQuery {
        project: config.project.clone(),
        order_by: PipelineOrder::Id,
        username: None,
        sha: None,
        ref_name: Some(branch),
        pages: Pages::Limit(limit),
    }
}

/// How many pipelines a comparison takes.
pub const COMPARED: usize = 2;

/// The last two pipelines of a branch, and their jobs.
#[derive(Debug)]
pub struct TwoPipelines {
    pub ref_name: String,
    /// The older one.
    pub from: Pipeline,
    pub from_jobs: JobMap,
    /// The newer one.
    pub to: Pipeline,
    pub to_jobs: JobMap,
}

/// Whether `two` are the two newest pipelines, the older one and the newer one, of a list that
/// begins with the newest.
pub open spec fn are_two_newest(
    pipelines: Seq<Pipeline>,
    two: Result<(Pipeline, Pipeline), Error>,
) -> bool {
    match two {
        Ok((from, to)) => pipelines.len() >= 2 && to == pipelines[0] && from == pipelines[1],
        Err(error) => pipelines.len() < 2 && error == Error::NotEnoughPipelines,
    }
}

/// Picks the two pipelines to compare, the older one and the newer one, from a list that
/// begins with the newest.
pub fn two_newest(pipelines: &Vec<Pipeline>) -> (two: Result<(Pipeline, Pipeline), Error>)
    ensures
        are_two_newest(pipelines@, two),
{
    if pipelines.len() < 2 {
        Err(Error::NotEnoughPipelines)
    } else {
        Ok((pipelines[1].clone(), pipelines[0].clone()))
    }
}

/// Puts two pipelines, the older one and the newer one, together with the jobs of each.
pub fn pair_up(
    ref_name: String,
    two: (Pipeline, Pipeline),
    from_jobs: JobMap,
    to_jobs: JobMap,
) -> (pair: TwoPipelines)
    ensures
        pair == (TwoPipelines { ref_name, from: two.0, from_jobs, to: two.1, to_jobs }),
{
    let (from, to) = two;
    TwoPipelines { ref_name, from, from_jobs, to, to_jobs }
}

/// The line for a merge request of a branch.
pub open spec fn merge_request_line(
    config: Config,
    branch: Seq<char>,
    request: MergeRequestResult,
) -> Seq<char> {
    branch + " -> "@ + request.target_branch@ + "   "@ + config.merge_request_url(request.iid)
}

/// Lists the merge requests of a branch, one line each.
pub fn list_merge_requests(config: &Config, branch: &str, found: &Vec<MergeRequestResult>) -> (lines:
    Vec<String>)
    ensures
        views(lines@) == found@.map_values(
            |request: MergeRequestResult| merge_request_line(*config, branch@, request),
        ),
{
    let mut lines: Vec<String> = Vec::new();
    let mut i: usize = 0;
    while i < found.len()
        invariant
            i <= found.len(),
            views(lines@) =~= found@.take(i as int).map_values(
                |request: MergeRequestResult| merge_request_line(*config, branch@, request),
            ),
        decreases found.len() - i,
    {
        let ghost before = lines@;
        let request = &found[i];
        let line = branch.to_owned().concat(" -> ").concat(
            request.target_branch.as_str(),
        ).concat("   ").concat(config.get_merge_request_url(request.iid).as_str());
        lines.push(line);
        assert(views(lines@) =~= views(before).push(line@));
        i += 1;
    }
    assert(found@.take(i as int) =~= found@);
    lines
}

} // verus!
