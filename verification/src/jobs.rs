//! The jobs of a pipeline and of the pipelines that it starts.

use crate::bridges::PipelineBridges;
use crate::config::Config;
#[allow(unused_imports)]
use crate::diff::filter_push;
use crate::error::Error;
use crate::model::{Bridge, Job};
use crate::names::{is_before, name_before};
#[allow(unused_imports)]
use crate::names::{name_transitive, name_trichotomy};
use crate::query::Pages;
use crate::text::same_text;
use std::collections::VecDeque;
use vstd::prelude::*;

verus! {

/// Whether the names of `entries` are in ascending order, each of them once.
pub open spec fn sorted_by_name(entries: Seq<(String, Job)>) -> bool {
    forall|i: int, j: int|
        0 <= i < j < entries.len() ==> name_before(
            (#[trigger] entries[i]).0@,
            (#[trigger] entries[j]).0@,
        )
}

/// Whether one of `entries` has the given name.
pub open spec fn has_name(entries: Seq<(String, Job)>, name: Seq<char>) -> bool {
    exists|i: int| 0 <= i < entries.len() && (#[trigger] entries[i]).0@ == name
}

/// The place in `entries` of one with the given name.
pub open spec fn place_of(entries: Seq<(String, Job)>, name: Seq<char>) -> int {
    choose|i: int| 0 <= i < entries.len() && (#[trigger] entries[i]).0@ == name
}

/// The jobs of `entries`, by their names.
pub open spec fn entries_map(entries: Seq<(String, Job)>) -> Map<Seq<char>, Job> {
    Map::new(
        |name: Seq<char>| has_name(entries, name),
        |name: Seq<char>| entries[place_of(entries, name)].1,
    )
}

/// The last of `jobs` with each name, by that name.
pub open spec fn by_name(jobs: Seq<Job>) -> Map<Seq<char>, Job>
    decreases jobs.len(),
{
    if jobs.len() == 0 {
        Map::empty()
    } else {
        by_name(jobs.drop_last()).insert(jobs.last().name@, jobs.last())
    }
}

/// In sorted entries a name has one place.
pub proof fn place_is_unique(entries: Seq<(String, Job)>, i: int)
    requires
        sorted_by_name(entries),
        0 <= i < entries.len(),
    ensures
        has_name(entries, entries[i].0@),
        place_of(entries, entries[i].0@) == i,
        entries_map(entries)[entries[i].0@] == entries[i].1,
{
    let p = place_of(entries, entries[i].0@);
    assert(entries[i].0@ == entries[i].0@);
    name_trichotomy(entries[p].0@, entries[i].0@);
    name_trichotomy(entries[i].0@, entries[p].0@);
}

/// Jobs, by their names.
#[derive(Debug)]
pub struct JobMap {
    entries: Vec<(String, Job)>,
}

impl View for JobMap {
    type V = Map<Seq<char>, Job>;

    open spec fn view(&self) -> Map<Seq<char>, Job> {
        entries_map(self.entries())
    }
}

impl JobMap {
    /// The names and jobs, in the order in which they come out.
    pub closed spec fn entries(&self) -> Seq<(String, Job)> {
        self.entries@
    }

    /// The names are in ascending order, each of them once.
    pub open spec fn wf(&self) -> bool {
        sorted_by_name(self.entries())
    }

    /// No jobs.
    pub fn new() -> (map: JobMap)
        ensures
            map.wf(),
            map@ == Map::<Seq<char>, Job>::empty(),
            map.entries().len() == 0,
    {
        let map = JobMap { entries: Vec::new() };
        assert(map@ =~= Map::<Seq<char>, Job>::empty());
        map
    }

    /// Puts a job under a name, in place of the one that was there.
    pub fn insert(&mut self, name: String, job: Job)
        requires
            old(self).wf(),
        ensures
            final(self).wf(),
            final(self)@ == old(self)@.insert(name@, job),
    {
        let ghost before = self.entries@;
        let ghost key = name@;
        let mut i: usize = 0;
        while i < self.entries.len() && is_before(self.entries[i].0.as_str(), name.as_str())
            invariant
                i <= self.entries.len(),
                self.entries@ == before,
                name@ == key,
                forall|j: int| 0 <= j < i ==> name_before((#[trigger] before[j]).0@, key),
            decreases self.entries.len() - i,
        {
            i += 1;
        }
        if i < self.entries.len() && same_text(self.entries[i].0.as_str(), name.as_str()) {
            self.entries.set(i, (name, job));
            assert(self.entries@ == before.update(i as int, (name, job)));
        } else {
            self.entries.insert(i, (name, job));
            assert(self.entries@ == before.insert(i as int, (name, job)));
            proof {
                if i < before.len() {
                    name_trichotomy(before[i as int].0@, key);
                    assert forall|j: int| i <= j < before.len() implies name_before(
                        key,
                        (#[trigger] before[j]).0@,
                    ) by {
                        if j > i {
                            name_transitive(key, before[i as int].0@, before[j].0@);
                        }
                    }
                }
            }
        }
        let ghost after = self.entries@;
        proof {
            assert(sorted_by_name(after));
            assert forall|other: Seq<char>| has_name(after, other) == (has_name(before, other)
                || other == key) by {
                assert(after[i as int].0@ == key);
                if has_name(before, other) {
                    let p = place_of(before, other);
                    if after.len() == before.len() {
                        assert(after[p].0@ == other);
                    } else if p < i {
                        assert(after[p] == before[p]);
                    } else {
                        assert(after[p + 1] == before[p]);
                    }
                }
                if has_name(after, other) && other != key {
                    let p = place_of(after, other);
                    if after.len() == before.len() {
                        assert(before[p] == after[p]);
                    } else if p < i {
                        assert(before[p] == after[p]);
                    } else {
                        assert(before[p - 1] == after[p]);
                    }
                }
            }
            place_is_unique(after, i as int);
            assert forall|other: Seq<char>| has_name(before, other) && other != key implies (
            #[trigger] entries_map(after)[other]) == entries_map(before)[other] by {
                let p = place_of(before, other);
                if after.len() == before.len() || p < i {
                    assert(after[p] == before[p]);
                    place_is_unique(after, p);
                } else {
                    assert(after[p + 1] == before[p]);
                    place_is_unique(after, p + 1);
                }
            }
            assert(entries_map(after) =~= entries_map(before).insert(key, job));
        }
    }

    /// Puts each job under its name; of several with one name the last one stays.
    pub fn from_jobs(jobs: &Vec<Job>) -> (map: JobMap)
        ensures
            map.wf(),
            map@ == by_name(jobs@),
    {
        let mut map = JobMap::new();
        let mut i: usize = 0;
        assert(jobs@.take(0) =~= Seq::<Job>::empty());
        while i < jobs.len()
            invariant
                i <= jobs.len(),
                map.wf(),
                map@ == by_name(jobs@.take(i as int)),
            decreases jobs.len() - i,
        {
            let job = jobs[i].clone();
            map.insert(job.name.clone(), job);
            assert(jobs@.take(i + 1).drop_last() =~= jobs@.take(i as int));
            i += 1;
        }
        assert(jobs@.take(i as int) =~= jobs@);
        map
    }

    /// The names and jobs, by ascending names.
    pub fn into_entries(self) -> (entries: Vec<(String, Job)>)
        ensures
            entries@ == self.entries(),
    {
        self.entries
    }

    /// How many jobs there are.
    pub fn len(&self) -> (len: usize)
        ensures
            len == self.entries().len(),
    {
        self.entries.len()
    }

    /// The name and the job at the given place.
    pub fn entry(&self, i: usize) -> (entry: &(String, Job))
        requires
            i < self.entries().len(),
        ensures
            *entry == self.entries()[i as int],
    {
        &self.entries[i]
    }

    /// The jobs, by ascending names.
    pub fn values(&self) -> (jobs: Vec<Job>)
        ensures
            jobs@ == self.entries().map_values(|entry: (String, Job)| entry.1),
    {
        let mut jobs: Vec<Job> = Vec::new();
        let mut i: usize = 0;
        while i < self.entries.len()
            invariant
                i <= self.entries.len(),
                jobs@ =~= self.entries().take(i as int).map_values(
                    |entry: (String, Job)| entry.1,
                ),
            decreases self.entries.len() - i,
        {
            jobs.push(self.entries[i].1.clone());
            i += 1;
        }
        assert(self.entries().take(i as int) =~= self.entries());
        jobs
    }
}

/// Which jobs of a pipeline are asked for.
#[derive(Debug, Clone, Copy, PartialEq, Eq, Structural)]
pub enum JobDetailMode {
    WithManual,
    WithoutManual,
}

/// The states in which a job is asked for.
#[derive(Debug, Clone, Copy, PartialEq, Eq, Structural)]
pub enum JobScope {
    Pending,
    Running,
    Failed,
    Success,
    Canceled,
    Manual,
}

/// The states asked for: manual jobs come last, where they are wanted.
pub open spec fn scopes(detail: JobDetailMode) -> Seq<JobScope> {
    let always = seq![
        JobScope::Pending,
        JobScope::Running,
        JobScope::Failed,
        JobScope::Success,
        JobScope::Canceled,
    ];
    match detail {
        JobDetailMode::WithManual => always.push(JobScope::Manual),
        JobDetailMode::WithoutManual => always,
    }
}

/// The pipelines that `bridges` lead to, in their order.
pub open spec fn downstreams(bridges: Seq<Bridge>) -> Seq<u64> {
    bridges.filter(|bridge: Bridge| bridge.downstream_pipeline is Some).map_values(
        |bridge: Bridge| bridge.downstream_pipeline->0.id,
    )
}

/// A question to the server: the jobs of a pipeline that are in given states.
#[derive(Debug)]
pub struct JobsQuery {
    pub project: String,
    pub pipeline_id: u64,
    pub scopes: Vec<JobScope>,
    pub pages: Pages,
}

impl JobsQuery {
    /// The question for the links from the same pipeline to those that it starts. All of
    /// them are asked for, like the jobs.
    pub fn bridges(&self) -> (bridges: Result<PipelineBridges, Error>)
        ensures
            bridges == Ok::<_, Error>(
                PipelineBridges { project: self.project, pipeline: self.pipeline_id },
            ),
    {
        PipelineBridges::builder().project(self.project.clone()).pipeline(
            self.pipeline_id,
        ).build()
    }
}

/// Collects the jobs of a pipeline, then those of the pipelines that it starts, and so
/// on until none is left that was started.
#[derive(Debug)]
pub struct JobCollector {
    /// The pipelines that are still to be asked for, the next one first.
    pub waiting: VecDeque<u64>,
    pub jobs: Vec<Job>,
    pub detail: JobDetailMode,
}

impl JobCollector {
    /// Starts with a pipeline.
    pub fn new(pipeline_id: u64, detail: JobDetailMode) -> (collector: JobCollector)
        ensures
            collector.waiting@ == seq![pipeline_id],
            collector.jobs@ == Seq::<Job>::empty(),
            collector.detail == detail,
    {
        let mut waiting: VecDeque<u64> = VecDeque::new();
        waiting.push_back(pipeline_id);
        assert(waiting@ =~= seq![pipeline_id]);
        JobCollector { waiting, jobs: Vec::new(), detail }
    }

    /// Whether `query` is what the server is asked next: all jobs of the next pipeline of
    /// the project, in the wanted states; nothing, once all jobs are there.
    pub open spec fn asks(self, config: Config, query: Option<JobsQuery>) -> bool {
        match query {
            Some(query) => {
                &&& self.waiting@.len() > 0
                &&& query.project == config.project
                &&& query.pipeline_id == self.waiting@[0]
                &&& query.scopes@ == scopes(self.detail)
                &&& query.pages == Pages::All
            },
            None => self.waiting@.len() == 0,
        }
    }

    /// What to ask the server next.
    pub fn query(&self, config: &Config) -> (query: Option<JobsQuery>)
        ensures
            self.asks(*config, query),
    {
        if self.waiting.len() == 0 {
            return None;
        }
        let mut wanted = vec![
            JobScope::Pending,
            JobScope::Running,
            JobScope::Failed,
            JobScope::Success,
            JobScope::Canceled,
        ];
        match self.detail {
            JobDetailMode::WithManual => wanted.push(JobScope::Manual),
            JobDetailMode::WithoutManual => {},
        }
        assert(wanted@ =~= scopes(self.detail));
        Some(
            JobsQuery {
                project: config.project.clone(),
                pipeline_id: self.waiting[0],
                scopes: wanted,
                pages: Pages::All,
            },
        )
    }

    /// The pipelines that are still to be asked for after the next one.
    pub open spec fn later(self) -> Seq<u64> {
        if self.waiting@.len() > 0 {
            self.waiting@.drop_first()
        } else {
            Seq::empty()
        }
    }

    /// Whether `after` is what the server's answers on a pipeline leave.
    pub open spec fn added(self, jobs: Seq<Job>, bridges: Seq<Bridge>, after: JobCollector) -> bool {
        &&& after.jobs@ == self.jobs@ + jobs
        &&& after.waiting@ == self.later() + downstreams(bridges)
        &&& after.detail == self.detail
    }

    /// Adds the server's answers on the pipeline that was asked for: its jobs, and
    /// its links to other pipelines.
    pub fn add(&mut self, jobs: Vec<Job>, bridges: &Vec<Bridge>)
        ensures
            old(self).added(jobs@, bridges@, *final(self)),
    {
        let mut added = jobs;
        self.jobs.append(&mut added);
        if self.waiting.len() > 0 {
            self.waiting.pop_front();
        }
        let ghost later = old(self).later();
        let ghost leads = |bridge: Bridge| bridge.downstream_pipeline is Some;
        let mut i: usize = 0;
        proof {
            reveal(Seq::filter);
            assert(bridges@.take(0) =~= Seq::<Bridge>::empty());
            assert(self.waiting@ =~= later + downstreams(bridges@.take(0)));
        }
        while i < bridges.len()
            invariant
                i <= bridges.len(),
                leads == (|bridge: Bridge| bridge.downstream_pipeline is Some),
                self.jobs@ == old(self).jobs@ + jobs@,
                self.detail == old(self).detail,
                self.waiting@ =~= later + downstreams(bridges@.take(i as int)),
            decreases bridges.len() - i,
        {
            proof {
                filter_push(bridges@, i as int, leads);
            }
            if let Some(pipeline) = &bridges[i].downstream_pipeline {
                self.waiting.push_back(pipeline.id);
                assert(downstreams(bridges@.take(i + 1)) =~= downstreams(
                    bridges@.take(i as int),
                ).push(pipeline.id));
            }
            i += 1;
        }
        assert(bridges@.take(i as int) =~= bridges@);
    }

    /// The jobs that were collected, by their names.
    pub fn finish(&self) -> (map: JobMap)
        ensures
            map.wf(),
            map@ == by_name(self.jobs@),
    {
        JobMap::from_jobs(&self.jobs)
    }
}

/// Every job that was collected is there under its name, unless a later one has that
/// name; and nothing else is.
pub proof fn last_of_name_stays(jobs: Seq<Job>, name: Seq<char>)
    ensures
        by_name(jobs).contains_key(name) <==> exists|i: int|
            0 <= i < jobs.len() && (#[trigger] jobs[i]).name@ == name,
        by_name(jobs).contains_key(name) ==> exists|i: int|
            {
                &&& 0 <= i < jobs.len()
                &&& (#[trigger] jobs[i]).name@ == name
                &&& by_name(jobs)[name] == jobs[i]
                &&& forall|j: int| i < j < jobs.len() ==> (#[trigger] jobs[j]).name@ != name
            },
    decreases jobs.len(),
{
    if jobs.len() > 0 {
        last_of_name_stays(jobs.drop_last(), name);
        let last = jobs.len() - 1;
        if jobs[last].name@ != name && by_name(jobs).contains_key(name) {
            let i = choose|i: int|
                {
                    &&& 0 <= i < jobs.drop_last().len()
                    &&& (#[trigger] jobs.drop_last()[i]).name@ == name
                    &&& by_name(jobs.drop_last())[name] == jobs.drop_last()[i]
                    &&& forall|j: int|
                        i < j < jobs.drop_last().len() ==> (#[trigger] jobs.drop_last()[j]).name@
                            != name
                };
            assert(jobs[i] == jobs.drop_last()[i]);
            assert forall|j: int| i < j < jobs.len() implies (#[trigger] jobs[j]).name@ != name by {
                if j < last {
                    assert(jobs[j] == jobs.drop_last()[j]);
                }
            }
        }
        if exists|i: int| 0 <= i < jobs.len() && (#[trigger] jobs[i]).name@ == name {
            let i = choose|i: int| 0 <= i < jobs.len() && (#[trigger] jobs[i]).name@ == name;
            if i < last {
                assert(jobs.drop_last()[i] == jobs[i]);
            }
        }
    }
}

/// Whether `states` are what collecting goes through, when `answers` are the server's
/// answers, one after the other: the jobs of the pipeline that was asked for, and its
/// links to other pipelines.
pub open spec fn collecting(
    states: Seq<JobCollector>,
    answers: Seq<(Seq<Job>, Seq<Bridge>)>,
) -> bool {
    &&& states.len() == answers.len() + 1
    &&& forall|n: int|
        0 <= n < answers.len() ==> {
            &&& (#[trigger] states[n]).waiting@.len() > 0
            &&& states[n].added(answers[n].0, answers[n].1, states[n + 1])
        }
}

/// All pipelines are asked for alike: each question is for all jobs of the project's
/// pipeline, in the same states as for the first one.
pub proof fn questions_are_alike(
    states: Seq<JobCollector>,
    answers: Seq<(Seq<Job>, Seq<Bridge>)>,
    n: int,
    config: Config,
    query: JobsQuery,
)
    requires
        collecting(states, answers),
        0 <= n < states.len(),
        states[n].asks(config, Some(query)),
    ensures
        query.project == config.project,
        query.scopes@ == scopes(states[0].detail),
        query.pages == Pages::All,
{
    same_detail(states, answers, n);
}

proof fn same_detail(states: Seq<JobCollector>, answers: Seq<(Seq<Job>, Seq<Bridge>)>, n: int)
    requires
        collecting(states, answers),
        0 <= n < states.len(),
    ensures
        states[n].detail == states[0].detail,
    decreases n,
{
    if n > 0 {
        same_detail(states, answers, n - 1);
        assert(states[n - 1].added(answers[n - 1].0, answers[n - 1].1, states[n]));
    }
}

/// Every job of every pipeline that was asked for is in the list: there is one with its
/// name.
pub proof fn answers_are_listed(
    states: Seq<JobCollector>,
    answers: Seq<(Seq<Job>, Seq<Bridge>)>,
    k: int,
    i: int,
)
    requires
        collecting(states, answers),
        0 <= k < answers.len(),
        0 <= i < answers[k].0.len(),
    ensures
        by_name(states.last().jobs@).contains_key(answers[k].0[i].name@),
{
    let job = answers[k].0[i];
    let place = states[k].jobs@.len() + i;
    assert(states[k].added(answers[k].0, answers[k].1, states[k + 1]));
    assert(states[k + 1].jobs@[place] == job);
    jobs_stay(states, answers, k + 1, states.len() - 1, place);
    last_of_name_stays(states.last().jobs@, job.name@);
}

/// Every child of every pipeline is expanded: once nothing is left to ask for, the child
/// that a link leads to has been asked for, after its parent, and for each of its jobs
/// there is one with that name in the list.
pub proof fn children_are_expanded(
    states: Seq<JobCollector>,
    answers: Seq<(Seq<Job>, Seq<Bridge>)>,
    k: int,
    j: int,
)
    requires
        collecting(states, answers),
        states.last().waiting@.len() == 0,
        0 <= k < answers.len(),
        0 <= j < answers[k].1.len(),
        answers[k].1[j].downstream_pipeline is Some,
    ensures
        exists|m: int|
            {
                &&& k < m < answers.len()
                &&& (#[trigger] states[m]).waiting@[0]
                    == answers[k].1[j].downstream_pipeline->0.id
                &&& forall|i: int|
                    0 <= i < answers[m].0.len() ==> by_name(
                        states.last().jobs@,
                    ).contains_key((#[trigger] answers[m].0[i]).name@)
            },
{
    let bridges = answers[k].1;
    let child = bridges[j].downstream_pipeline->0.id;
    let leads = |bridge: Bridge| bridge.downstream_pipeline is Some;
    let linked = bridges.filter(leads);
    bridges.lemma_filter_contains(leads, j);
    assert(linked.contains(bridges[j]));
    let p = choose|p: int| 0 <= p < linked.len() && linked[p] == bridges[j];
    assert(downstreams(bridges)[p] == child);
    assert(states[k].added(answers[k].0, bridges, states[k + 1]));
    let place = states[k].later().len() + p;
    assert(states[k + 1].waiting@[place] == child);
    let m = turn_comes(states, answers, k + 1, place);
    assert forall|i: int| 0 <= i < answers[m].0.len() implies by_name(
        states.last().jobs@,
    ).contains_key((#[trigger] answers[m].0[i]).name@) by {
        answers_are_listed(states, answers, m, i);
    }
    assert(states[m].waiting@[0] == child);
}

proof fn turn_comes(
    states: Seq<JobCollector>,
    answers: Seq<(Seq<Job>, Seq<Bridge>)>,
    n: int,
    place: int,
) -> (m: int)
    requires
        collecting(states, answers),
        states.last().waiting@.len() == 0,
        0 <= n < states.len(),
        0 <= place < states[n].waiting@.len(),
    ensures
        n <= m < answers.len(),
        states[m].waiting@[0] == states[n].waiting@[place],
    decreases place,
{
    assert(n < answers.len());
    if place == 0 {
        n
    } else {
        assert(states[n].added(answers[n].0, answers[n].1, states[n + 1]));
        assert(states[n + 1].waiting@[place - 1] == states[n].waiting@[place]);
        turn_comes(states, answers, n + 1, place - 1)
    }
}

proof fn jobs_stay(
    states: Seq<JobCollector>,
    answers: Seq<(Seq<Job>, Seq<Bridge>)>,
    m: int,
    n: int,
    place: int,
)
    requires
        collecting(states, answers),
        0 <= m <= n < states.len(),
        0 <= place < states[m].jobs@.len(),
    ensures
        place < states[n].jobs@.len(),
        states[n].jobs@[place] == states[m].jobs@[place],
    decreases n - m,
{
    if m < n {
        jobs_stay(states, answers, m, n - 1, place);
        assert(states[n - 1].added(answers[n - 1].0, answers[n - 1].1, states[n]));
    }
}

} // verus!
