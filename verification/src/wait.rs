//! Waiting for the end of a pipeline, as a machine: it tells what to do next, and is told
//! what came of it.

use crate::config::Config;
#[allow(unused_imports)]
use crate::diff::filter_push;
use crate::error::Error;
use crate::jobs::JobMap;
use crate::model::{Job, MergeRequestResult, PipelineDetails};
use crate::modes::WaitOptions;
use crate::pattern::{check_pattern, find_pattern};
#[allow(unused_imports)]
use crate::pattern::{is_pattern, pattern_matches};
#[allow(unused_imports)]
use crate::text::{decimal, views};
use crate::text::{decimal_text, same_text};
use vstd::prelude::*;

verus! {

/// How many milliseconds lie between two looks at a pipeline.
pub const WAIT_MILLIS: u64 = 5000;

/// What there is to do.
#[derive(Debug)]
pub enum WaitAction {
    /// Ask for the details of a pipeline.
    FetchDetails(u64),
    /// Ask for the open merge requests of a branch, the newest first. The status of the
    /// pipeline is to be handed back with them.
    FetchMergeRequests(String, String),
    /// Collect the jobs of a failed pipeline, without the manual ones.
    FetchFailedJobs(u64),
    /// Collect the jobs of a running pipeline, without the manual ones. Its status is to
    /// be handed back with them.
    FetchStrictJobs(u64, String),
    /// Wait for so many milliseconds.
    Sleep(u64),
    /// Nothing, any more.
    Finish {
        /// Whether what was waited for has failed.
        failed: bool,
    },
}

/// What the machine answers: what to print, what to print as errors, and what to do then.
#[derive(Debug)]
pub struct WaitStep {
    pub out: Vec<String>,
    pub err: Vec<String>,
    pub action: WaitAction,
}

/// Waits for the end of a pipeline.
#[derive(Debug)]
pub struct Wait {
    id: u64,
    strict_jobs: Option<String>,
    markdown: bool,
    prev_state: Option<String>,
    mr_info: Option<(u64, String, String)>,
}

/// What a wait knows.
pub struct WaitView {
    /// The pipeline.
    pub id: u64,
    /// The pattern of the names of jobs that must not fail.
    pub strict_jobs: Option<Seq<char>>,
    /// Whether to print markdown.
    pub markdown: bool,
    /// The status that was last seen.
    pub prev_state: Option<Seq<char>>,
    /// The merge request of the pipeline's branch, that branch, and the branch that it
    /// is to be merged into.
    pub mr_info: Option<(u64, Seq<char>, Seq<char>)>,
}

/// The characters of a text, if there is one.
pub open spec fn text_view(text: Option<String>) -> Option<Seq<char>> {
    match text {
        Some(text) => Some(text@),
        None => None,
    }
}

impl View for Wait {
    type V = WaitView;

    closed spec fn view(&self) -> WaitView {
        WaitView {
            id: self.id,
            strict_jobs: text_view(self.strict_jobs),
            markdown: self.markdown,
            prev_state: text_view(self.prev_state),
            mr_info: match self.mr_info {
                Some((iid, branch, target)) => Some((iid, branch@, target@)),
                None => None,
            },
        }
    }
}

/// How the merge request of a pipeline is written.
pub open spec fn merge_request_text(
    config: Config,
    mr_info: Option<(u64, Seq<char>, Seq<char>)>,
) -> Seq<char> {
    match mr_info {
        Some((iid, branch, target)) => ", MR ["@ + decimal(iid as nat) + "]("@
            + config.merge_request_url(iid) + ") (`"@ + branch + "` → `"@ + target + "`)"@,
        None => ""@,
    }
}

impl WaitView {
    /// The line that tells the status of the pipeline.
    pub open spec fn status_line(self, config: Config, status: Seq<char>) -> Seq<char> {
        if self.markdown {
            "Pipeline ["@ + decimal(self.id as nat) + "]("@ + config.pipeline_url(self.id) + ")"@
                + merge_request_text(config, self.mr_info) + " status: "@ + status
        } else {
            "Pipeline "@ + decimal(self.id as nat) + " status: "@ + status
        }
    }

    /// What is printed of a status: nothing, where it is the one that was last seen.
    pub open spec fn news(self, config: Config, status: Seq<char>) -> Seq<Seq<char>> {
        if self.prev_state == Some(status) {
            Seq::empty()
        } else {
            seq![self.status_line(config, status)]
        }
    }

    /// Whether `after` and `step` are what a status leads to: the wait is over when the
    /// pipeline is, and else goes on after a while. The jobs of a failed pipeline are
    /// listed in markdown; those of a running one are looked at, where some must not
    /// fail.
    pub open spec fn judged(
        self,
        config: Config,
        status: Seq<char>,
        after: WaitView,
        step: WaitStep,
    ) -> bool {
        &&& views(step.out@) == self.news(config, status)
        &&& step.err@ == Seq::<String>::empty()
        &&& if status == "success"@ || status == "failed"@ || status == "skipped"@ {
            &&& after == self
            &&& if self.markdown && status == "failed"@ {
                step.action == WaitAction::FetchFailedJobs(self.id)
            } else {
                step.action == (WaitAction::Finish { failed: status != "success"@ })
            }
        } else if status == "running"@ && self.strict_jobs is Some {
            &&& after == self
            &&& step.action matches WaitAction::FetchStrictJobs(id, kept)
            &&& id == self.id && kept@ == status
        } else {
            self.slept(status, after, step.action)
        }
    }

    /// Whether `after` and `action` are what waiting for a while leads to.
    pub open spec fn slept(self, status: Seq<char>, after: WaitView, action: WaitAction) -> bool {
        &&& after == WaitView { prev_state: Some(status), ..self }
        &&& action == WaitAction::Sleep(WAIT_MILLIS)
    }
}

/// Whether a job has failed.
pub open spec fn has_failed(job: Job) -> bool {
    job.status@ == "failed"@
}

/// A failed job, as a link to its page.
pub open spec fn job_link(config: Config, entry: (String, Job)) -> Seq<char> {
    "["@ + entry.0@ + "]("@ + config.job_url(entry.1.id) + ")"@
}

/// `items` with `separator` between any two of them.
pub open spec fn joined(items: Seq<Seq<char>>, separator: Seq<char>) -> Seq<char>
    decreases items.len(),
{
    if items.len() == 0 {
        Seq::empty()
    } else if items.len() == 1 {
        items[0]
    } else {
        joined(items.drop_last(), separator) + separator + items.last()
    }
}

/// The links to the failed ones of some jobs.
pub open spec fn failed_links(config: Config, entries: Seq<(String, Job)>) -> Seq<Seq<char>> {
    entries.filter(|entry: (String, Job)| has_failed(entry.1)).map_values(
        |entry: (String, Job)| job_link(config, entry),
    )
}

/// The line that lists the failed jobs of a pipeline.
pub open spec fn failed_jobs_line(config: Config, entries: Seq<(String, Job)>) -> Seq<char> {
    "In jobs: "@ + joined(failed_links(config, entries), ", "@)
}

/// Lists the failed jobs of a pipeline.
pub fn list_failed_jobs(config: &Config, jobs: &JobMap) -> (line: String)
    ensures
        line@ == failed_jobs_line(*config, jobs.entries()),
{
    let mut list = "".to_owned();
    let mut count: usize = 0;
    let mut i: usize = 0;
    let ghost entries = jobs.entries();
    proof {
        reveal(Seq::filter);
        reveal_strlit("");
        assert(entries.take(0) =~= Seq::<(String, Job)>::empty());
        assert(list@ =~= joined(failed_links(*config, entries.take(0)), ", "@));
    }
    while i < jobs.len()
        invariant
            i <= entries.len(),
            entries == jobs.entries(),
            count <= i,
            count == failed_links(*config, entries.take(i as int)).len(),
            list@ == joined(failed_links(*config, entries.take(i as int)), ", "@),
        decreases entries.len() - i,
    {
        let entry = jobs.entry(i);
        let ghost before = failed_links(*config, entries.take(i as int));
        let ghost after = failed_links(*config, entries.take(i + 1));
        proof {
            filter_push(entries, i as int, |entry: (String, Job)| has_failed(entry.1));
        }
        if same_text(entry.1.status.as_str(), "failed") {
            assert(after =~= before.push(job_link(*config, *entry)));
            assert(after.drop_last() =~= before);
            let link = "[".to_owned().concat(entry.0.as_str()).concat("](").concat(
                config.get_job_url(entry.1.id).as_str(),
            ).concat(")");
            if count > 0 {
                list.append(", ");
            } else {
                assert(before =~= Seq::<Seq<char>>::empty());
                assert(list@ + link@ =~= link@);
            }
            list.append(link.as_str());
            count += 1;
        } else {
            assert(after =~= before);
        }
        i += 1;
    }
    assert(entries.take(i as int) =~= entries);
    "In jobs: ".to_owned().concat(list.as_str())
}

/// The names of the failed jobs among those that are marked.
pub open spec fn failed_names(entries: Seq<(String, Job)>, marked: Seq<bool>) -> Seq<Seq<char>>
    decreases entries.len(),
{
    if entries.len() == 0 {
        Seq::empty()
    } else {
        let before = failed_names(entries.drop_last(), marked.drop_last());
        if marked.last() && has_failed(entries.last().1) {
            before.push(entries.last().0@)
        } else {
            before
        }
    }
}

/// Picks the names of the failed jobs among those that are marked.
pub fn failed_among(jobs: &JobMap, marked: &Vec<bool>) -> (names: Vec<String>)
    requires
        marked@.len() == jobs.entries().len(),
    ensures
        views(names@) == failed_names(jobs.entries(), marked@),
{
    let mut names: Vec<String> = Vec::new();
    let mut i: usize = 0;
    let ghost entries = jobs.entries();
    while i < jobs.len()
        invariant
            i <= entries.len(),
            entries == jobs.entries(),
            marked@.len() == entries.len(),
            views(names@) =~= failed_names(entries.take(i as int), marked@.take(i as int)),
        decreases entries.len() - i,
    {
        let entry = jobs.entry(i);
        let ghost before = names@;
        assert(entries.take(i + 1).drop_last() =~= entries.take(i as int));
        assert(marked@.take(i + 1).drop_last() =~= marked@.take(i as int));
        if marked[i] && same_text(entry.1.status.as_str(), "failed") {
            names.push(entry.0.clone());
            assert(views(names@) =~= views(before).push(entry.0@));
        }
        i += 1;
    }
    assert(entries.take(i as int) =~= entries);
    assert(marked@.take(i as int) =~= marked@);
    names
}

/// The lines that tell which jobs let a running pipeline count as failed.
pub open spec fn strict_report(config: Config, id: u64, names: Seq<Seq<char>>) -> Seq<Seq<char>> {
    seq![""@, "Considered failed earlier due to jobs:"@, ""@] + names.map_values(
        |name: Seq<char>| "  "@ + name + ": "@ + config.job_url(id),
    )
}

/// Tells which jobs let a running pipeline count as failed.
pub fn report_strict(config: &Config, id: u64, names: &Vec<String>) -> (lines: Vec<String>)
    ensures
        views(lines@) == strict_report(*config, id, views(names@)),
{
    let mut lines: Vec<String> = Vec::new();
    lines.push("".to_owned());
    lines.push("Considered failed earlier due to jobs:".to_owned());
    lines.push("".to_owned());
    let mut i: usize = 0;
    assert(views(lines@) =~= strict_report(*config, id, views(names@).take(0)));
    while i < names.len()
        invariant
            i <= names.len(),
            views(lines@) =~= strict_report(*config, id, views(names@).take(i as int)),
        decreases names.len() - i,
    {
        let ghost before = lines@;
        let line = "  ".to_owned().concat(names[i].as_str()).concat(": ").concat(
            config.get_job_url(id).as_str(),
        );
        lines.push(line);
        assert(views(lines@) =~= views(before).push(line@));
        i += 1;
    }
    assert(views(names@).take(i as int) =~= views(names@));
    lines
}

/// Which of some names a pattern matches.
pub open spec fn matches_of(pattern: Seq<char>, entries: Seq<(String, Job)>) -> Seq<bool> {
    Seq::new(entries.len(), |i: int| pattern_matches(pattern, entries[i].0@))
}

fn mark_jobs(pattern: &str, jobs: &JobMap) -> (marked: Vec<bool>)
    requires
        is_pattern(pattern@),
    ensures
        marked@ == matches_of(pattern@, jobs.entries()),
{
    let mut marked: Vec<bool> = Vec::new();
    let mut i: usize = 0;
    while i < jobs.len()
        invariant
            i <= jobs.entries().len(),
            is_pattern(pattern@),
            marked@ =~= matches_of(pattern@, jobs.entries().take(i as int)),
        decreases jobs.entries().len() - i,
    {
        marked.push(find_pattern(pattern, jobs.entry(i).0.as_str()));
        i += 1;
    }
    assert(jobs.entries().take(i as int) =~= jobs.entries());
    marked
}

/// The end of a wait.
pub fn end_wait(failed: bool) -> (result: Result<(), Error>)
    ensures
        result == if failed {
            Err(Error::ExpectedFailure)
        } else {
            Ok(())
        },
{
    if failed {
        Err(Error::ExpectedFailure)
    } else {
        Ok(())
    }
}

/// Whether `wait` is what a wait begins as: there is none if and only if the pattern for the
/// jobs that must not fail is none.
pub open spec fn wait_begun(opts: WaitOptions, wait: Result<Wait, Error>) -> bool {
    let WaitOptions::Pipeline { id, strict_jobs, markdown } = opts;
    match wait {
        Ok(wait) => {
            &&& strict_jobs matches Some(pattern) ==> is_pattern(pattern@)
            &&& wait@ == WaitView {
                id,
                strict_jobs: text_view(strict_jobs),
                markdown,
                prev_state: None,
                mr_info: None,
            }
        },
        Err(error) => {
            &&& error is RegexError
            &&& strict_jobs matches Some(pattern) && !is_pattern(pattern@)
        },
    }
}

/// Whether `step` is what the server's refusal leads to: the end, if there is no such
/// pipeline, and else nothing that is known.
pub open spec fn refused(message: Seq<char>, step: Option<WaitStep>) -> bool {
    &&& step is Some <==> message == "404 Not found"@
    &&& step matches Some(step) ==> {
        &&& step.out@ == Seq::<String>::empty()
        &&& views(step.err@) == seq!["Pipeline not found"@]
        &&& step.action == (WaitAction::Finish { failed: true })
    }
}

/// Whether `step` is what the jobs of a failed pipeline lead to: they are listed, and the
/// wait is over.
pub open spec fn listed(config: Config, entries: Seq<(String, Job)>, step: WaitStep) -> bool {
    &&& views(step.out@) == seq![failed_jobs_line(config, entries)]
    &&& step.err@ == Seq::<String>::empty()
    &&& step.action == (WaitAction::Finish { failed: true })
}

impl WaitView {
    /// Whether `after` and `step` are what the details of the pipeline lead to. As long as
    /// no merge request is known, those of its branch are asked for first.
    pub open spec fn told(
        self,
        config: Config,
        details: PipelineDetails,
        after: WaitView,
        step: WaitStep,
    ) -> bool {
        match (self.mr_info, details.ref_name) {
            (None, Some(branch)) => {
                &&& after == self
                &&& step.out@ == Seq::<String>::empty()
                &&& step.err@ == Seq::<String>::empty()
                &&& step.action == WaitAction::FetchMergeRequests(branch, details.status)
            },
            _ => self.judged(config, details.status@, after, step),
        }
    }

    /// What is known once merge requests of a branch were found: the first one counts.
    pub open spec fn knowing(self, branch: Seq<char>, found: Seq<MergeRequestResult>) -> WaitView {
        WaitView {
            mr_info: if found.len() > 0 {
                Some((found[0].iid, branch, found[0].target_branch@))
            } else {
                self.mr_info
            },
            ..self
        }
    }

    /// The names of the failed jobs among those that must not fail.
    pub open spec fn strict_failures(self, entries: Seq<(String, Job)>) -> Seq<Seq<char>> {
        match self.strict_jobs {
            Some(pattern) => failed_names(entries, matches_of(pattern, entries)),
            None => Seq::empty(),
        }
    }

    /// Whether `after` and `step` are what the names of the failed jobs among those that
    /// must not fail lead to: the wait is over if there is any, and else goes on after a
    /// while.
    pub open spec fn judged_strictly(
        self,
        config: Config,
        status: Seq<char>,
        names: Seq<Seq<char>>,
        after: WaitView,
        step: WaitStep,
    ) -> bool {
        &&& step.out@ == Seq::<String>::empty()
        &&& if names.len() > 0 {
            &&& after == self
            &&& views(step.err@) == strict_report(config, self.id, names)
            &&& step.action == (WaitAction::Finish { failed: true })
        } else {
            &&& step.err@ == Seq::<String>::empty()
            &&& self.slept(status, after, step.action)
        }
    }
}

impl Wait {
    /// A pattern for jobs that must not fail is one.
    #[verifier::type_invariant]
    closed spec fn inv(self) -> bool {
        self.strict_jobs matches Some(pattern) ==> is_pattern(pattern@)
    }

    /// Starts to wait, unless the pattern for the jobs that must not fail is none.
    pub fn new(opts: WaitOptions) -> (wait: Result<Wait, Error>)
        ensures
            wait_begun(opts, wait),
    {
        let WaitOptions::Pipeline { id, strict_jobs, markdown } = opts;
        if let Some(pattern) = &strict_jobs {
            if let Err(error) = check_pattern(pattern.as_str()) {
                return Err(Error::RegexError(error));
            }
        }
        Ok(Wait { id, strict_jobs, markdown, prev_state: None, mr_info: None })
    }

    /// What to do at the start and after a while: to ask for the details of the pipeline.
    pub fn look(&self) -> (action: WaitAction)
        ensures
            action == WaitAction::FetchDetails(self@.id),
    {
        WaitAction::FetchDetails(self.id)
    }

    /// Goes on when the server refused to tell the details of the pipeline, and said why.
    /// The wait is over if there is no such pipeline; nothing is known of what to do in
    /// any other case.
    pub fn on_refusal(&self, message: &str) -> (step: Option<WaitStep>)
        ensures
            refused(message@, step),
    {
        if same_text(message, "404 Not found") {
            let mut err: Vec<String> = Vec::new();
            err.push("Pipeline not found".to_owned());
            assert(views(err@) =~= seq!["Pipeline not found"@]);
            Some(WaitStep { out: Vec::new(), err, action: WaitAction::Finish { failed: true } })
        } else {
            None
        }
    }

    /// Goes on with the details of the pipeline. As long as no merge request is known,
    /// those of its branch are asked for first.
    pub fn on_details(&mut self, config: &Config, details: PipelineDetails) -> (step: WaitStep)
        ensures
            old(self)@.told(*config, details, final(self)@, step),
    {
        if self.mr_info.is_none() {
            if let Some(branch) = details.ref_name {
                return WaitStep {
                    out: Vec::new(),
                    err: Vec::new(),
                    action: WaitAction::FetchMergeRequests(branch, details.status),
                };
            }
        }
        self.judge(config, details.status)
    }

    /// Goes on with the merge requests of the pipeline's branch: the first one counts.
    pub fn on_merge_requests(
        &mut self,
        config: &Config,
        branch: String,
        status: String,
        found: &Vec<MergeRequestResult>,
    ) -> (step: WaitStep)
        ensures
            old(self)@.knowing(branch@, found@).judged(*config, status@, final(self)@, step),
    {
        proof {
            use_type_invariant(&*self);
        }
        if found.len() > 0 {
            self.mr_info = Some((found[0].iid, branch, found[0].target_branch.clone()));
        }
        self.judge(config, status)
    }

    /// Goes on with the jobs of a failed pipeline.
    pub fn on_failed_jobs(&self, config: &Config, jobs: &JobMap) -> (step: WaitStep)
        ensures
            listed(*config, jobs.entries(), step),
    {
        let mut out: Vec<String> = Vec::new();
        out.push(list_failed_jobs(config, jobs));
        assert(views(out@) =~= seq![failed_jobs_line(*config, jobs.entries())]);
        WaitStep { out, err: Vec::new(), action: WaitAction::Finish { failed: true } }
    }

    /// Goes on with the jobs of a running pipeline.
    pub fn on_strict_jobs(&mut self, config: &Config, status: String, jobs: &JobMap) -> (step:
        WaitStep)
        ensures
            old(self)@.judged_strictly(
                *config,
                status@,
                old(self)@.strict_failures(jobs.entries()),
                final(self)@,
                step,
            ),
    {
        proof {
            use_type_invariant(&*self);
        }
        let names: Vec<String> = match &self.strict_jobs {
            Some(pattern) => {
                let marked = mark_jobs(pattern.as_str(), jobs);
                failed_among(jobs, &marked)
            },
            None => Vec::new(),
        };
        assert(self@.strict_jobs is None ==> views(names@) =~= Seq::<Seq<char>>::empty());
        self.on_strict_failures(config, status, &names)
    }

    /// Goes on with the names of the failed jobs among those that must not fail.
    pub fn on_strict_failures(&mut self, config: &Config, status: String, names: &Vec<String>) -> (step:
        WaitStep)
        ensures
            old(self)@.judged_strictly(*config, status@, views(names@), final(self)@, step),
    {
        proof {
            use_type_invariant(&*self);
        }
        if names.len() > 0 {
            WaitStep {
                out: Vec::new(),
                err: report_strict(config, self.id, names),
                action: WaitAction::Finish { failed: true },
            }
        } else {
            self.prev_state = Some(status);
            WaitStep { out: Vec::new(), err: Vec::new(), action: WaitAction::Sleep(WAIT_MILLIS) }
        }
    }

    fn status_line(&self, config: &Config, status: &str) -> (line: String)
        ensures
            line@ == self@.status_line(*config, status@),
    {
        let id = decimal_text(self.id);
        if self.markdown {
            let request = match &self.mr_info {
                Some((iid, branch, target)) => ", MR [".to_owned().concat(
                    decimal_text(*iid).as_str(),
                ).concat("](").concat(config.get_merge_request_url(*iid).as_str()).concat(
                    ") (`",
                ).concat(branch.as_str()).concat("` → `").concat(target.as_str()).concat("`)"),
                None => "".to_owned(),
            };
            "Pipeline [".to_owned().concat(id.as_str()).concat("](").concat(
                config.get_pipeline_url(self.id).as_str(),
            ).concat(")").concat(request.as_str()).concat(" status: ").concat(status)
        } else {
            "Pipeline ".to_owned().concat(id.as_str()).concat(" status: ").concat(status)
        }
    }

    fn judge(&mut self, config: &Config, status: String) -> (step: WaitStep)
        ensures
            old(self)@.judged(*config, status@, final(self)@, step),
    {
        proof {
            use_type_invariant(&*self);
        }
        let mut out: Vec<String> = Vec::new();
        let seen = match &self.prev_state {
            Some(prev) => same_text(prev.as_str(), status.as_str()),
            None => false,
        };
        if !seen {
            out.push(self.status_line(config, status.as_str()));
        }
        assert(views(out@) =~= self@.news(*config, status@));
        let success = same_text(status.as_str(), "success");
        let failed = same_text(status.as_str(), "failed");
        let skipped = same_text(status.as_str(), "skipped");
        let err: Vec<String> = Vec::new();
        if success || failed || skipped {
            let action = if self.markdown && failed {
                WaitAction::FetchFailedJobs(self.id)
            } else {
                WaitAction::Finish { failed: !success }
            };
            WaitStep { out, err, action }
        } else if same_text(status.as_str(), "running") && self.strict_jobs.is_some() {
            WaitStep { out, err, action: WaitAction::FetchStrictJobs(self.id, status) }
        } else {
            self.prev_state = Some(status);
            WaitStep { out, err, action: WaitAction::Sleep(WAIT_MILLIS) }
        }
    }
}

/// A running pipeline counts as failed if and only if a job has failed whose name matches
/// the pattern of those that must not.
pub proof fn strict_failure_counts(
    wait: WaitView,
    config: Config,
    status: Seq<char>,
    entries: Seq<(String, Job)>,
    after: WaitView,
    step: WaitStep,
)
    requires
        wait.strict_jobs is Some,
        wait.judged_strictly(
            config,
            status,
            wait.strict_failures(entries),
            after,
            step,
        ),
    ensures
        step.action == (WaitAction::Finish { failed: true }) <==> exists|i: int|
            {
                &&& 0 <= i < entries.len()
                &&& pattern_matches(wait.strict_jobs->0, (#[trigger] entries[i]).0@)
                &&& entries[i].1.status@ == "failed"@
            },
{
    let pattern = wait.strict_jobs->0;
    let marked = matches_of(pattern, entries);
    failed_names_exist(entries, marked);
    if exists|i: int| 0 <= i < entries.len() && #[trigger] marked[i] && has_failed(entries[i].1) {
        let i = choose|i: int|
            0 <= i < entries.len() && #[trigger] marked[i] && has_failed(entries[i].1);
        assert(pattern_matches(pattern, entries[i].0@));
    }
    if exists|i: int|
        {
            &&& 0 <= i < entries.len()
            &&& pattern_matches(pattern, (#[trigger] entries[i]).0@)
            &&& entries[i].1.status@ == "failed"@
        } {
        let i = choose|i: int|
            {
                &&& 0 <= i < entries.len()
                &&& pattern_matches(pattern, (#[trigger] entries[i]).0@)
                &&& entries[i].1.status@ == "failed"@
            };
        assert(marked[i]);
    }
}

proof fn failed_names_exist(entries: Seq<(String, Job)>, marked: Seq<bool>)
    requires
        marked.len() == entries.len(),
    ensures
        failed_names(entries, marked).len() > 0 <==> exists|i: int|
            0 <= i < entries.len() && #[trigger] marked[i] && has_failed(entries[i].1),
    decreases entries.len(),
{
    if entries.len() > 0 {
        let rest = entries.drop_last();
        let rest_marked = marked.drop_last();
        failed_names_exist(rest, rest_marked);
        let last = entries.len() - 1;
        if exists|i: int|
            0 <= i < rest.len() && #[trigger] rest_marked[i] && has_failed(rest[i].1) {
            let i = choose|i: int|
                0 <= i < rest.len() && #[trigger] rest_marked[i] && has_failed(rest[i].1);
            assert(marked[i] && has_failed(entries[i].1));
        }
        if exists|i: int|
            0 <= i < entries.len() && #[trigger] marked[i] && has_failed(entries[i].1) {
            let i = choose|i: int|
                0 <= i < entries.len() && #[trigger] marked[i] && has_failed(entries[i].1);
            if i < last {
                assert(rest_marked[i] && has_failed(rest[i].1));
            }
        }
        if marked[last] && has_failed(entries[last].1) {
            assert(failed_names(entries, marked).len() > 0);
        }
    }
}

/// A wait ends well if and only if the pipeline did.
pub proof fn only_success_ends_well(
    wait: WaitView,
    config: Config,
    status: Seq<char>,
    after: WaitView,
    step: WaitStep,
)
    requires
        wait.judged(config, status, after, step),
    ensures
        step.action == (WaitAction::Finish { failed: false }) <==> status == "success"@,
{
    reveal_strlit("success");
    reveal_strlit("failed");
}

/// A status is told once, as long as it does not change: when the wait goes on after a
/// while, nothing is printed for the same status.
pub proof fn status_is_told_once(
    wait: WaitView,
    config: Config,
    status: Seq<char>,
    after: WaitView,
    step: WaitStep,
    again: WaitView,
    step_again: WaitStep,
)
    requires
        wait.judged(config, status, after, step),
        step.action is Sleep,
        after.judged(config, status, again, step_again),
    ensures
        step_again.out@ == Seq::<String>::empty(),
{
    assert(views(step_again.out@).len() == 0);
}

} // verus!
