//! What holds of the way from a command line to what is shown.

use crate::alias::{jobs_of, AliasAction, AliasJob, AliasStep};
use crate::command::{
    are_two_newest, branch_source_of, merge_request_line, newest_query, pipelines_of, plan_of,
    BranchSource, Plan,
};
use crate::config::Config;
use crate::error::Error;
use crate::model::{MergeRequestResult, Pipeline, User};
use crate::modes::{
    AliasCommands, AliasPipelines, CommandMode, ReportCommands, RunMode,
};
use crate::query::{Pages, PipelineOrder};
#[allow(unused_imports)]
use crate::text::decimal;
#[allow(unused_imports)]
use crate::timestamp::whole_seconds_between;
use crate::worker::query_for;
use vstd::prelude::*;

verus! {

/// Where a greatest age is given, whether a pipeline is the new one depends on the time of
/// its creation alone: two pipelines that were created at the same time are both waited
/// past, or both not, whatever else they are and whatever commit is named.
pub proof fn age_counts_from_creation(
    a: AliasJob,
    a_pipelines: Seq<Pipeline>,
    a_after: AliasJob,
    a_step: AliasStep,
    b: AliasJob,
    b_pipelines: Seq<Pipeline>,
    b_after: AliasJob,
    b_step: AliasStep,
    now: (i64, u32, i32),
)
    requires
        a.went_on(a_pipelines, now, a_after, a_step),
        b.went_on(b_pipelines, now, b_after, b_step),
        a.info.wait_by_creation_time is Some,
        a.info.wait_by_creation_time == b.info.wait_by_creation_time,
        a_pipelines.len() > 0,
        b_pipelines.len() > 0,
        a_pipelines[0].created_at@.0 == b_pipelines[0].created_at@.0,
        a_pipelines[0].created_at@.1 == b_pipelines[0].created_at@.1,
    ensures
        a_step.action is Sleep <==> b_step.action is Sleep,
        a_step.action is Done <==> b_step.action is Done,
{
}

/// Where a greatest age is given, a pipeline is waited past if and only if at least so many
/// whole seconds lie between its creation and now. Outside of leap seconds, one that was
/// created at least so many seconds before now is always waited past, and one that was
/// created later is not, unless no age at all is allowed.
pub proof fn old_pipelines_are_waited_past(
    alias: AliasJob,
    pipelines: Seq<Pipeline>,
    now: (i64, u32, i32),
    after: AliasJob,
    step: AliasStep,
    max: u64,
)
    requires
        alias.went_on(pipelines, now, after, step),
        alias.info.wait_by_creation_time == Some(max),
        pipelines.len() > 0,
    ensures
        step.action is Sleep <==> whole_seconds_between(
            pipelines[0].created_at@.0,
            pipelines[0].created_at@.1,
            now.0,
            now.1,
        ) >= max,
        step.action is Sleep <==> !(step.action is Done),
        pipelines[0].created_at@.1 < 1_000_000_000 && now.1 < 1_000_000_000 ==> {
            let age = (now.0 - pipelines[0].created_at@.0) * 1_000_000_000 + now.1
                - pipelines[0].created_at@.1;
            &&& age >= max * 1_000_000_000 ==> step.action is Sleep
            &&& 0 <= age < max * 1_000_000_000 ==> step.action is Done
            &&& age < 0 && max > 0 ==> step.action is Done
        },
{
}

/// Where a commit and no age is given, a pipeline is waited past if and only if it runs on
/// another commit, whenever it was created.
pub proof fn other_commits_are_waited_past(
    alias: AliasJob,
    pipelines: Seq<Pipeline>,
    now: (i64, u32, i32),
    after: AliasJob,
    step: AliasStep,
)
    requires
        alias.went_on(pipelines, now, after, step),
        alias.info.wait_by_creation_time is None,
        pipelines.len() > 0,
    ensures
        alias.info.wait_by_githash matches Some(hash) ==> {
            &&& step.action is Done <==> pipelines[0].sha@ == hash@
            &&& step.action is Sleep <==> pipelines[0].sha@ != hash@
        },
        alias.info.wait_by_githash is None ==> step.action is Done,
{
}

/// Where there is no pipeline, one is waited for if a new one is wanted, and else there is
/// none to be found. A while is a second.
pub proof fn missing_pipelines_are_waited_for(
    alias: AliasJob,
    pipelines: Seq<Pipeline>,
    now: (i64, u32, i32),
    after: AliasJob,
    step: AliasStep,
)
    requires
        alias.went_on(pipelines, now, after, step),
    ensures
        step.action is Fail <==> pipelines.len() == 0 && alias.info.wait_by_creation_time is None
            && alias.info.wait_by_githash is None,
        step.action matches AliasAction::Fail(error) ==> error == Error::NoPipelineFound,
        pipelines.len() == 0 ==> !(step.action is Done),
        step.action matches AliasAction::Sleep(millis) ==> millis == 1000,
        !(step.action is Fetch),
{
}

/// The jobs of the pipeline that was found are shown, without the manual ones; of several
/// pipelines, those of the last one.
pub proof fn found_jobs_are_shown(
    alias: AliasJob,
    pipelines: Seq<Pipeline>,
    now: (i64, u32, i32),
    after: AliasJob,
    step: AliasStep,
)
    requires
        alias.went_on(pipelines, now, after, step),
    ensures
        step.action matches AliasAction::Done(mode) ==> mode matches RunMode::Jobs(info)
            && info.pipeline_id == pipelines[pipelines.len() - 1].id && !info.manual_jobs,
{
}

/// The mode that shows the jobs of a pipeline names that pipeline, and leaves out the manual
/// jobs.
pub proof fn jobs_are_those_of_the_pipeline(id: u64)
    ensures
        jobs_of(id) matches RunMode::Jobs(info) && info.pipeline_id == id && !info.manual_jobs,
{
}

/// That a new pipeline is waited for is told if and only if it is waited for and was not told
/// before, and from then on it was. The text says what is waited for: an age, where one is
/// given, and else a commit. Nothing else changes.
pub proof fn waiting_is_told_once(
    alias: AliasJob,
    pipelines: Seq<Pipeline>,
    now: (i64, u32, i32),
    after: AliasJob,
    step: AliasStep,
)
    requires
        alias.went_on(pipelines, now, after, step),
    ensures
        step.message is Some <==> step.action is Sleep && !alias.announced,
        after.announced <==> alias.announced || step.action is Sleep,
        after.info == alias.info,
        step.message matches Some(text) ==> {
            &&& alias.info.wait_by_creation_time matches Some(max) ==> text@
                == "glim: waiting for a new pipeline to be created (no older than "@ + decimal(
                max as nat,
            ) + " seconds)"@
            &&& alias.info.wait_by_creation_time is None ==> (alias.info.wait_by_githash matches Some(
                hash,
            ) && text@ == "glim: waiting for a new pipeline to be created (of githash "@ + hash@
                + ")"@)
        },
{
    if let Some(text) = step.message {
        let start = "glim: waiting for a new pipeline to be created"@;
        reveal_strlit("glim: waiting for a new pipeline to be created");
        match (alias.info.wait_by_creation_time, alias.info.wait_by_githash) {
            (Some(max), _) => {
                reveal_strlit(" (no older than ");
                reveal_strlit("glim: waiting for a new pipeline to be created (no older than ");
                assert("glim: waiting for a new pipeline to be created (no older than "@ =~= start
                    + " (no older than "@);
                assert(start + (" (no older than "@ + decimal(max as nat) + " seconds)"@) =~= start
                    + " (no older than "@ + decimal(max as nat) + " seconds)"@);
            },
            (None, Some(hash)) => {
                reveal_strlit(" (of githash ");
                reveal_strlit("glim: waiting for a new pipeline to be created (of githash ");
                assert("glim: waiting for a new pipeline to be created (of githash "@ =~= start
                    + " (of githash "@);
                assert(start + (" (of githash "@ + hash@ + ")"@) =~= start + " (of githash "@
                    + hash@ + ")"@);
            },
            (None, None) => {},
        }
    }
}

/// Each command has its plan, which holds what the command holds: what can be shown at once
/// is shown, and what is only reported or waited for is not shown.
pub proof fn commands_have_their_plans(mode: CommandMode)
    ensures
        plan_of(mode) is Show <==> mode is Pipelines || mode is PipeDiff || mode is Jobs,
        plan_of(mode) is Wait <==> mode is Wait,
        plan_of(mode) is ListMergeRequests <==> mode is MergeRequests,
        plan_of(mode) is Compare <==> mode is FromReport,
        plan_of(mode) is FindJobs <==> (mode matches CommandMode::FromAlias(alias)
            && alias is Jobs),
        plan_of(mode) is FindPipelines <==> (mode matches CommandMode::FromAlias(alias)
            && alias is Pipelines),
        plan_of(mode) matches Plan::Show(shown) ==> {
            &&& shown matches RunMode::Pipelines(info) ==> mode == CommandMode::Pipelines(info)
            &&& shown matches RunMode::PipeDiff(info) ==> mode == CommandMode::PipeDiff(info)
            &&& shown matches RunMode::Jobs(info) ==> mode == CommandMode::Jobs(info)
            &&& !(shown is Nothing || shown is Help)
        },
        plan_of(mode) matches Plan::Wait(opts) ==> mode == CommandMode::Wait(opts),
        plan_of(mode) matches Plan::ListMergeRequests(opts) ==> mode == CommandMode::MergeRequests(
            opts,
        ),
        plan_of(mode) matches Plan::FindJobs(info) ==> mode == CommandMode::FromAlias(
            AliasCommands::Jobs(info),
        ),
        plan_of(mode) matches Plan::FindPipelines(info) ==> mode == CommandMode::FromAlias(
            AliasCommands::Pipelines(info),
        ),
        plan_of(mode) matches Plan::Compare(info) ==> mode == CommandMode::FromReport(
            ReportCommands::TwoPipelinesReports(info),
        ),
{
}

/// The branch is taken from the repository if and only if neither a commit nor a branch was
/// given; a branch that was given counts if and only if no commit was.
pub proof fn branches_are_taken_as_given(info: AliasPipelines)
    ensures
        branch_source_of(info) is Repository <==> info.specific_commithash is None
            && info.specific_ref is None,
        branch_source_of(info) is Given <==> info.specific_commithash is None
            && info.specific_ref is Some,
        branch_source_of(info) is NoBranch <==> info.specific_commithash is Some,
        branch_source_of(info) matches BranchSource::Given(branch) ==> info.specific_ref == Some(
            branch,
        ),
{
}

/// What the command says of users, branch, commit and number is what the server is asked for.
/// Everyone's pipelines are those of no particular user, and their names are looked up; else
/// they are those of the user that was given, or of the one of the API key. With all branches
/// no branch counts; else it is the one that was asked for, of everyone's pipelines, and the
/// one that was found, of a single user's.
pub proof fn commands_reach_the_server(
    config: Config,
    info: AliasPipelines,
    branch: Option<String>,
    current_user: User,
)
    ensures
        ({
            let mode = pipelines_of(info, branch);
            let query = query_for(config, mode, current_user);
            &&& query.username is None <==> info.everyone
            &&& !info.everyone && info.custom_username is Some ==> query.username
                == info.custom_username
            &&& !info.everyone && info.custom_username is None ==> query.username == Some(
                current_user.username,
            )
            &&& mode.all_users == info.everyone
            &&& mode.resolve_usernames == info.everyone
            &&& info.everyone ==> mode.custom_username is None
            &&& query.sha == info.specific_commithash
            &&& query.pages == Pages::Limit(info.nr_pipelines)
            &&& info.all_refs ==> query.ref_name is None
            &&& !info.all_refs && info.everyone ==> query.ref_name == info.specific_ref
            &&& !info.all_refs && !info.everyone ==> query.ref_name == branch
            &&& query.project == config.project
            &&& query.order_by == PipelineOrder::Id
        }),
{
}

/// The newest pipelines of a branch are asked for of this branch and of all users, on any
/// commit, and no more than so many, in the order of their numbers.
pub proof fn newest_pipelines_are_those_of_the_branch(config: Config, branch: String, limit: usize)
    ensures
        newest_query(config, branch, limit).ref_name == Some(branch),
        newest_query(config, branch, limit).username is None,
        newest_query(config, branch, limit).sha is None,
        newest_query(config, branch, limit).pages == Pages::Limit(limit),
        newest_query(config, branch, limit).order_by == PipelineOrder::Id,
        newest_query(config, branch, limit).project == config.project,
{
}

/// Two pipelines can be compared if and only if there are two. They are the first two of the
/// list, and where it begins with the newest, the difference leads from the older one to the
/// newer one.
pub proof fn differences_lead_to_the_newer(
    pipelines: Seq<Pipeline>,
    two: Result<(Pipeline, Pipeline), Error>,
)
    requires
        are_two_newest(pipelines, two),
        forall|i: int, j: int| 0 <= i < j < pipelines.len() ==> pipelines[i].id > pipelines[j].id,
    ensures
        two is Ok <==> pipelines.len() >= 2,
        two matches Err(error) ==> error == Error::NotEnoughPipelines,
        two matches Ok((from, to)) ==> {
            &&& from.id < to.id
            &&& pipelines.contains(from)
            &&& pipelines.contains(to)
            &&& forall|i: int|
                0 <= i < pipelines.len() && pipelines[i] != to && pipelines[i] != from ==> (
                #[trigger] pipelines[i]).id < from.id
        },
{
    if let Ok((from, to)) = two {
        assert(pipelines[0] == to);
        assert(pipelines[1] == from);
        assert forall|i: int|
            0 <= i < pipelines.len() && pipelines[i] != to && pipelines[i] != from implies (
        #[trigger] pipelines[i]).id < from.id by {
            assert(i > 1);
        }
    }
}

/// The line for a merge request begins with its branch, ends with its address, and names the
/// branch that it is to be merged into between them.
pub proof fn merge_requests_have_their_lines(
    config: Config,
    branch: Seq<char>,
    request: MergeRequestResult,
)
    ensures
        ({
            let line = merge_request_line(config, branch, request);
            let address = config.merge_request_url(request.iid);
            let target = request.target_branch@;
            let arrow = branch.len() as int;
            let gap = arrow + 4 + target.len();
            &&& line.len() == gap + 3 + address.len()
            &&& line.take(arrow) == branch
            &&& line.subrange(arrow, arrow + 4) == " -> "@
            &&& line.subrange(arrow + 4, gap) == target
            &&& line.subrange(gap, gap + 3) == "   "@
            &&& line.skip(gap + 3) == address
        }),
{
    reveal_strlit(" -> ");
    reveal_strlit("   ");
    let line = merge_request_line(config, branch, request);
    let address = config.merge_request_url(request.iid);
    let target = request.target_branch@;
    let arrow = branch.len() as int;
    let gap = arrow + 4 + target.len();
    assert(line.take(arrow) =~= branch);
    assert(line.subrange(arrow, arrow + 4) =~= " -> "@);
    assert(line.subrange(arrow + 4, gap) =~= target);
    assert(line.subrange(gap, gap + 3) =~= "   "@);
    assert(line.skip(gap + 3) =~= address);
}

} // verus!
