//! What holds of waiting for the end of a pipeline.

use crate::config::Config;
use crate::error::Error;
use crate::model::{Job, MergeRequestResult, PipelineDetails};
use crate::modes::WaitOptions;
#[allow(unused_imports)]
use crate::pattern::{is_pattern, pattern_matches};
#[allow(unused_imports)]
use crate::text::{decimal, views};
#[allow(unused_imports)]
use crate::wait::{
    failed_links, has_failed, job_link, joined, listed, matches_of, refused,
    strict_report, wait_begun,
};
use crate::wait::{Wait, WaitAction, WaitStep, WaitView};
use vstd::prelude::*;

verus! {

proof fn statuses_differ()
    ensures
        "success"@ != "failed"@,
        "success"@ != "skipped"@,
        "success"@ != "running"@,
        "failed"@ != "skipped"@,
        "failed"@ != "running"@,
        "skipped"@ != "running"@,
{
    reveal_strlit("success");
    reveal_strlit("failed");
    reveal_strlit("skipped");
    reveal_strlit("running");
    assert("failed"@.len() == 6);
    assert("success"@.len() == 7);
    assert("skipped"@.len() == 7);
    assert("running"@.len() == 7);
    assert("success"@[1] == 'u');
    assert("skipped"@[1] == 'k');
    assert("running"@[0] == 'r');
    assert("success"@[0] == 's');
    assert("skipped"@[0] == 's');
}

/// The jobs of a pipeline are looked at if and only if it is running and some jobs must not
/// fail, whatever else is wanted or known. They are those of the pipeline that is waited for.
pub proof fn running_pipelines_are_watched(
    wait: WaitView,
    config: Config,
    status: Seq<char>,
    after: WaitView,
    step: WaitStep,
)
    requires
        wait.judged(config, status, after, step),
    ensures
        step.action is FetchStrictJobs <==> status == "running"@ && wait.strict_jobs is Some,
        step.action matches WaitAction::FetchStrictJobs(id, kept) ==> {
            &&& id == wait.id
            &&& kept@ == "running"@
            &&& after == wait
        },
{
    statuses_differ();
}

/// Markdown changes nothing but the text that is printed, and that the jobs of a failed
/// pipeline are listed before the end: two waits for one pipeline that are both strict, or
/// both not, decide the same on a status, whatever merge requests they know of.
pub proof fn markdown_changes_no_decision(
    config: Config,
    status: Seq<char>,
    a: WaitView,
    a_after: WaitView,
    a_step: WaitStep,
    b: WaitView,
    b_after: WaitView,
    b_step: WaitStep,
)
    requires
        a.judged(config, status, a_after, a_step),
        b.judged(config, status, b_after, b_step),
        a.id == b.id,
        a.strict_jobs is Some <==> b.strict_jobs is Some,
        a.prev_state == b.prev_state,
    ensures
        status != "failed"@ ==> {
            &&& a_step.action is Sleep <==> b_step.action is Sleep
            &&& a_step.action is FetchStrictJobs <==> b_step.action is FetchStrictJobs
            &&& a_step.action matches WaitAction::Finish { failed } ==> b_step.action == (
            WaitAction::Finish { failed })
            &&& b_step.action matches WaitAction::Finish { failed } ==> a_step.action == (
            WaitAction::Finish { failed })
        },
        status == "failed"@ ==> {
            &&& a.markdown ==> a_step.action == WaitAction::FetchFailedJobs(a.id)
            &&& !a.markdown ==> a_step.action == (WaitAction::Finish { failed: true })
        },
        a_step.out@.len() == b_step.out@.len(),
        a_after.prev_state == b_after.prev_state,
{
    statuses_differ();
    assert(views(a_step.out@).len() == a_step.out@.len());
    assert(views(b_step.out@).len() == b_step.out@.len());
}

/// The wait comes to its end if and only if the pipeline was a success, has failed or was
/// skipped; only a success ends well. Otherwise it goes on after five seconds, or with a
/// look at the jobs; only a while that passes makes the status the one that was last seen,
/// and nothing else changes.
pub proof fn waits_end_with_the_pipeline(
    wait: WaitView,
    config: Config,
    status: Seq<char>,
    after: WaitView,
    step: WaitStep,
)
    requires
        wait.judged(config, status, after, step),
    ensures
        step.action is Finish || step.action is FetchFailedJobs <==> status == "success"@ || status
            == "failed"@ || status == "skipped"@,
        step.action matches WaitAction::Finish { failed } ==> (failed <==> status != "success"@),
        step.action is FetchFailedJobs <==> status == "failed"@ && wait.markdown,
        step.action matches WaitAction::FetchFailedJobs(id) ==> id == wait.id,
        step.action matches WaitAction::Sleep(millis) ==> millis == 5 * 1000 && after.prev_state
            == Some(status),
        step.action is Sleep || after.prev_state == wait.prev_state,
        !(step.action is FetchDetails || step.action is FetchMergeRequests),
        step.err@.len() == 0,
        after.id == wait.id,
        after.strict_jobs == wait.strict_jobs,
        after.markdown == wait.markdown,
        after.mr_info == wait.mr_info,
{
    statuses_differ();
}

/// A status is told in one line if and only if it is not the one that was last seen. The
/// line names the pipeline and ends with the status.
pub proof fn changed_statuses_are_told(
    wait: WaitView,
    config: Config,
    status: Seq<char>,
    after: WaitView,
    step: WaitStep,
)
    requires
        wait.judged(config, status, after, step),
    ensures
        step.out@.len() == if wait.prev_state == Some(status) {
            0nat
        } else {
            1nat
        },
        step.out@.len() > 0 && !wait.markdown ==> step.out@[0]@ == "Pipeline "@ + decimal(
            wait.id as nat,
        ) + " status: "@ + status,
        step.out@.len() > 0 && wait.markdown && wait.mr_info is None ==> step.out@[0]@
            == "Pipeline ["@ + decimal(wait.id as nat) + "]("@ + config.pipeline_url(wait.id)
            + ") status: "@ + status,
        step.out@.len() > 0 && wait.markdown ==> (wait.mr_info matches Some((iid, branch, target))
            ==> step.out@[0]@ == "Pipeline ["@ + decimal(wait.id as nat) + "]("@
            + config.pipeline_url(wait.id) + "), MR ["@ + decimal(iid as nat) + "]("@
            + config.merge_request_url(iid) + ") (`"@ + branch + "` → `"@ + target
            + "`) status: "@ + status),
{
    let lines = views(step.out@);
    assert(lines.len() == step.out@.len());
    if wait.prev_state != Some(status) {
        assert(lines[0] == step.out@[0]@);
        assert(lines[0] == wait.status_line(config, status));
        if wait.markdown {
            let head = "Pipeline ["@ + decimal(wait.id as nat) + "]("@ + config.pipeline_url(
                wait.id,
            );
            match wait.mr_info {
                None => {
                    reveal_strlit(")");
                    reveal_strlit("");
                    reveal_strlit(" status: ");
                    reveal_strlit(") status: ");
                    assert(") status: "@ =~= ")"@ + ""@ + " status: "@);
                    assert(head + ")"@ + ""@ + " status: "@ + status =~= head + (")"@ + ""@
                        + " status: "@) + status);
                },
                Some((iid, branch, target)) => {
                    reveal_strlit(")");
                    reveal_strlit(", MR [");
                    reveal_strlit("), MR [");
                    reveal_strlit("`)");
                    reveal_strlit(" status: ");
                    reveal_strlit("`) status: ");
                    assert("), MR ["@ =~= ")"@ + ", MR ["@);
                    assert("`) status: "@ =~= "`)"@ + " status: "@);
                    let middle = decimal(iid as nat) + "]("@ + config.merge_request_url(iid)
                        + ") (`"@ + branch + "` → `"@ + target;
                    assert(", MR ["@ + decimal(iid as nat) + "]("@ + config.merge_request_url(iid)
                        + ") (`"@ + branch + "` → `"@ + target + "`)"@ =~= ", MR ["@ + middle
                        + "`)"@);
                    assert(head + ")"@ + (", MR ["@ + middle + "`)"@) + " status: "@ + status
                        =~= head + (")"@ + ", MR ["@) + middle + ("`)"@ + " status: "@) + status);
                    assert(head + "), MR ["@ + decimal(iid as nat) + "]("@
                        + config.merge_request_url(iid) + ") (`"@ + branch + "` → `"@ + target
                        + "`) status: "@ + status =~= head + "), MR ["@ + middle + "`) status: "@
                        + status);
                },
            }
        }
    }
}

/// The merge requests of the pipeline's branch are asked for if and only if none is known and
/// there is a branch. Nothing is printed then, nothing changes, and the status is kept for
/// later; else it is judged at once.
pub proof fn merge_requests_are_looked_for(
    wait: WaitView,
    config: Config,
    details: PipelineDetails,
    after: WaitView,
    step: WaitStep,
)
    requires
        wait.told(config, details, after, step),
    ensures
        step.action is FetchMergeRequests <==> wait.mr_info is None && details.ref_name is Some,
        step.action matches WaitAction::FetchMergeRequests(branch, status) ==> {
            &&& details.ref_name == Some(branch)
            &&& status == details.status
            &&& after == wait
            &&& step.out@.len() == 0
            &&& step.err@.len() == 0
        },
        step.action is FetchMergeRequests || wait.judged(config, details.status@, after, step),
{
    statuses_differ();
}

/// Of the merge requests that were found, the first one is the one that is known from then
/// on, with its number and its two branches; where none was found, none becomes known.
/// Whatever was found, the status is told and judged as it would have been without.
pub proof fn first_merge_request_counts(
    wait: WaitView,
    config: Config,
    branch: Seq<char>,
    found: Seq<MergeRequestResult>,
    status: Seq<char>,
    after: WaitView,
    step: WaitStep,
)
    requires
        wait.knowing(branch, found).judged(config, status, after, step),
    ensures
        found.len() > 0 ==> after.mr_info == Some(
            (found[0].iid, branch, found[0].target_branch@),
        ),
        found.len() == 0 ==> after.mr_info == wait.mr_info,
        after.id == wait.id,
        after.strict_jobs == wait.strict_jobs,
        after.markdown == wait.markdown,
        step.action is Sleep || after.prev_state == wait.prev_state,
        step.out@.len() == 0 <==> wait.prev_state == Some(status),
        step.action is FetchStrictJobs <==> status == "running"@ && wait.strict_jobs is Some,
        step.action is FetchFailedJobs <==> status == "failed"@ && wait.markdown,
{
    statuses_differ();
    assert(views(step.out@).len() == step.out@.len());
}

/// A refusal ends the wait, and badly, if and only if it says that there is no such pipeline,
/// which is then told as an error.
pub proof fn missing_pipelines_end_the_wait(message: Seq<char>, step: Option<WaitStep>)
    requires
        refused(message, step),
    ensures
        message == "404 Not found"@ <==> step is Some,
        step matches Some(step) ==> {
            &&& step.action == (WaitAction::Finish { failed: true })
            &&& step.out@.len() == 0
            &&& step.err@.len() == 1
            &&& step.err@[0]@ == "Pipeline not found"@
        },
{
    if let Some(step) = step {
        assert(views(step.err@).len() == step.err@.len());
        assert(views(step.err@)[0] == step.err@[0]@);
    }
}

/// A wait begins with what the options say, and with nothing seen yet. It does not begin if
/// and only if the text that jobs are to match is no pattern.
pub proof fn waits_begin_as_the_options_say(opts: WaitOptions, wait: Result<Wait, Error>)
    requires
        wait_begun(opts, wait),
    ensures
        wait is Err <==> (opts->strict_jobs matches Some(pattern) && !is_pattern(pattern@)),
        wait matches Err(error) ==> error is RegexError,
        wait matches Ok(wait) ==> {
            &&& wait@.id == opts->id
            &&& wait@.markdown == opts->markdown
            &&& wait@.strict_jobs is Some <==> opts->strict_jobs is Some
            &&& opts->strict_jobs matches Some(pattern) ==> wait@.strict_jobs == Some(pattern@)
            &&& wait@.prev_state is None
            &&& wait@.mr_info is None
        },
{
}

/// The jobs of a failed pipeline are listed in one line, and the wait ends badly. The line
/// begins with what it lists, and with one more job at the end it grows by a link to that
/// job if and only if the job has failed, after a comma if there was another one.
pub proof fn failed_jobs_are_listed(
    config: Config,
    entries: Seq<(String, Job)>,
    step: WaitStep,
    entry: (String, Job),
    longer: WaitStep,
)
    requires
        listed(config, entries, step),
        listed(config, entries.push(entry), longer),
    ensures
        step.out@.len() == 1,
        step.err@.len() == 0,
        step.action == (WaitAction::Finish { failed: true }),
        (forall|i: int| 0 <= i < entries.len() ==> (#[trigger] entries[i]).1.status@ != "failed"@)
            ==> step.out@[0]@ == "In jobs: "@,
        entry.1.status@ != "failed"@ ==> longer.out@[0]@ == step.out@[0]@,
        entry.1.status@ == "failed"@ ==> longer.out@[0]@ == step.out@[0]@ + (if exists|i: int|
            0 <= i < entries.len() && (#[trigger] entries[i]).1.status@ == "failed"@ {
            ", "@
        } else {
            Seq::empty()
        }) + "["@ + entry.0@ + "]("@ + config.job_url(entry.1.id) + ")"@,
{
    let keep = |entry: (String, Job)| has_failed(entry.1);
    let links = failed_links(config, entries);
    let more = failed_links(config, entries.push(entry));
    assert(views(step.out@).len() == step.out@.len());
    assert(views(longer.out@).len() == longer.out@.len());
    assert(views(step.out@)[0] == step.out@[0]@);
    assert(views(longer.out@)[0] == longer.out@[0]@);
    failed_links_exist(config, entries);
    assert(entries.push(entry).drop_last() =~= entries);
    assert(entries.push(entry).filter(keep) == if keep(entry) {
        entries.filter(keep).push(entry)
    } else {
        entries.filter(keep)
    }) by {
        reveal(Seq::filter);
    }
    assert("In jobs: "@ + Seq::<char>::empty() =~= "In jobs: "@);
    if entry.1.status@ == "failed"@ {
        assert(more =~= links.push(job_link(config, entry)));
        assert(more.drop_last() =~= links);
        let link = "["@ + entry.0@ + "]("@ + config.job_url(entry.1.id) + ")"@;
        if links.len() > 0 {
            let list = joined(links, ", "@);
            assert("In jobs: "@ + (list + ", "@ + link) =~= "In jobs: "@ + list + ", "@ + "["@
                + entry.0@ + "]("@ + config.job_url(entry.1.id) + ")"@);
        } else {
            assert("In jobs: "@ + link =~= "In jobs: "@ + Seq::empty() + "["@ + entry.0@ + "]("@
                + config.job_url(entry.1.id) + ")"@);
        }
    } else {
        assert(more =~= links);
    }
}

proof fn failed_links_exist(config: Config, entries: Seq<(String, Job)>)
    ensures
        failed_links(config, entries).len() > 0 <==> exists|i: int|
            0 <= i < entries.len() && (#[trigger] entries[i]).1.status@ == "failed"@,
    decreases entries.len(),
{
    reveal(Seq::filter);
    if entries.len() > 0 {
        let rest = entries.drop_last();
        failed_links_exist(config, rest);
        if exists|i: int| 0 <= i < rest.len() && (#[trigger] rest[i]).1.status@ == "failed"@ {
            let i = choose|i: int|
                0 <= i < rest.len() && (#[trigger] rest[i]).1.status@ == "failed"@;
            assert(entries[i].1.status@ == "failed"@);
        }
        if exists|i: int| 0 <= i < entries.len() && (#[trigger] entries[i]).1.status@ == "failed"@ {
            let i = choose|i: int|
                0 <= i < entries.len() && (#[trigger] entries[i]).1.status@ == "failed"@;
            if i < rest.len() {
                assert(rest[i].1.status@ == "failed"@);
            }
        }
        assert(entries.last() == entries[entries.len() - 1]);
    }
}

/// The jobs that let a running pipeline count as failed are those that have failed and whose
/// name matches the pattern, in their order; without a pattern there are none.
pub proof fn strict_failures_are_the_matching_failed_jobs(
    wait: WaitView,
    entries: Seq<(String, Job)>,
    entry: (String, Job),
)
    ensures
        wait.strict_jobs is None || entries.len() == 0 ==> wait.strict_failures(entries).len() == 0,
        wait.strict_jobs matches Some(pattern) ==> wait.strict_failures(entries.push(entry)) == if {
            &&& entry.1.status@ == "failed"@
            &&& pattern_matches(pattern, entry.0@)
        } {
            wait.strict_failures(entries).push(entry.0@)
        } else {
            wait.strict_failures(entries)
        },
{
    if let Some(pattern) = wait.strict_jobs {
        let longer = entries.push(entry);
        assert(longer.drop_last() =~= entries);
        assert(matches_of(pattern, longer).drop_last() =~= matches_of(pattern, entries));
    }
}

/// A running pipeline ends the wait, and badly, if and only if there are such jobs. They are
/// told as errors, one line each, below a heading; nothing else is printed. Without any, the
/// wait goes on after five seconds, and the status is the one that was last seen.
pub proof fn strict_failures_are_told(
    wait: WaitView,
    config: Config,
    status: Seq<char>,
    names: Seq<Seq<char>>,
    after: WaitView,
    step: WaitStep,
)
    requires
        wait.judged_strictly(config, status, names, after, step),
    ensures
        names.len() > 0 <==> step.action is Finish,
        names.len() == 0 <==> step.action is Sleep,
        step.action matches WaitAction::Finish { failed } ==> failed && after == wait,
        step.action matches WaitAction::Sleep(millis) ==> {
            &&& millis == 5 * 1000
            &&& after == WaitView { prev_state: Some(status), ..wait }
        },
        step.out@.len() == 0,
        step.err@.len() == if names.len() > 0 {
            names.len() + 3
        } else {
            0
        },
        names.len() > 0 ==> {
            &&& step.err@[0]@ == ""@
            &&& step.err@[1]@ == "Considered failed earlier due to jobs:"@
            &&& step.err@[2]@ == ""@
        },
        forall|i: int|
            0 <= i < names.len() ==> (#[trigger] step.err@[i + 3])@ == "  "@ + names[i] + ": "@
                + config.job_url(wait.id),
{
    let lines = views(step.err@);
    assert(lines.len() == step.err@.len());
    assert forall|i: int| 0 <= i < lines.len() implies #[trigger] step.err@[i]@ == lines[i] by {}
    if names.len() > 0 {
        let report = strict_report(config, wait.id, names);
        assert(report.len() == names.len() + 3);
        assert(report[0] == ""@);
        assert(report[1] == "Considered failed earlier due to jobs:"@);
        assert(report[2] == ""@);
        assert forall|i: int| 0 <= i < names.len() implies (#[trigger] step.err@[i + 3])@ == "  "@
            + names[i] + ": "@ + config.job_url(wait.id) by {
            assert(lines[i + 3] == report[i + 3]);
        }
    }
}

} // verus!
