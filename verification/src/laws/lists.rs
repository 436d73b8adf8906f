//! What holds of lists: of the data in them, of the selection, and of the jobs.

use crate::config::Config;
use crate::diff::{change_report, JobDiff};
use crate::jobs::{scopes, JobCollector, JobDetailMode, JobScope, JobsQuery};
use crate::model::{Bridge, Job};
use crate::query::Pages;
use crate::updatable::{Selection, Updatable};
use vstd::prelude::*;

verus! {

/// Data is asked for again once it has lasted its milliseconds, and not before; missing
/// data is asked for at once; what was asked for stays asked for; and the data is kept.
pub proof fn data_lasts_its_time<T>(data: Updatable<T>, age: u128, dur: u64)
    ensures
        data.after_check(age, dur).update <==> data.update || data.data is None || age / 1_000_000
            >= dur,
        data.after_check(age, dur).data == data.data,
{
}

/// Older data is asked for where younger data is, and where it is to last for less time.
pub proof fn older_data_is_asked_for<T>(
    data: Updatable<T>,
    age: u128,
    dur: u64,
    older: u128,
    less: u64,
)
    requires
        age <= older,
        less <= dur,
        data.after_check(age, dur).update,
    ensures
        data.after_check(older, less).update,
{
}

/// An item can be selected if there is data that has it, and it is shown.
pub proof fn shown_items_are_selectable<T>(data: Updatable<Vec<T>>, visible: Option<usize>, i: nat)
    ensures
        i < data.selectable(visible) <==> i < data.items().len() && (visible matches Some(count)
            ==> i < count),
{
    if let Some((_, items)) = data.data {
        assert(items.len() == items@.len());
    }
}

/// A selection that is on an item stays there; nothing selected becomes the first item;
/// one behind the last item becomes the last one; and without data nothing is selected.
pub proof fn selections_move_only_where_they_must<T>(
    data: Updatable<Vec<T>>,
    s: Selection,
    visible: Option<usize>,
)
    ensures
        data.data is None ==> data.fixed(s, visible).selected is None,
        data.data is Some && (s.selected matches Some(i) && i < data.selectable(visible))
            ==> data.fixed(s, visible) == s,
        data.selectable(visible) > 0 && s.selected is None ==> data.fixed(s, visible).selected
            == Some(0usize),
        data.selectable(visible) > 0 && (s.selected matches Some(i) && i >= data.selectable(
            visible,
        )) ==> data.fixed(s, visible).selected == Some((data.selectable(visible) - 1) as usize),
        data.fixed(s, visible).rewound <==> s.rewound || data.fixed(s, visible).selected is None,
{
}

/// A step leads to the neighbour, and at either end stays there.
pub proof fn steps_lead_to_neighbours<T>(
    data: Updatable<Vec<T>>,
    s: Selection,
    visible: Option<usize>,
    i: usize,
)
    requires
        s.selected == Some(i),
        i < data.selectable(visible),
    ensures
        i > 0 ==> data.one_up(s, visible).selected == Some((i - 1) as usize),
        i == 0 ==> data.one_up(s, visible) == s,
        i + 1 < data.selectable(visible) ==> data.one_down(s, visible).selected == Some(
            (i + 1) as usize,
        ),
        i + 1 == data.selectable(visible) ==> data.one_down(s, visible).selected == Some(i),
        data.one_up(s, visible).rewound == s.rewound,
        data.one_down(s, visible).rewound == s.rewound,
{
}

/// A page leads as many items on as it has steps, but no further than to either end.
pub proof fn pages_lead_on<T>(
    data: Updatable<Vec<T>>,
    s: Selection,
    visible: Option<usize>,
    i: usize,
    n: nat,
)
    requires
        s.selected == Some(i),
        i < data.selectable(visible),
        data.selectable(visible) <= usize::MAX,
    ensures
        data.ups(s, visible, n).selected == Some(
            if n <= i {
                (i - n) as usize
            } else {
                0
            },
        ),
        data.downs(s, visible, n).selected == Some(
            if i + n < data.selectable(visible) {
                (i + n) as usize
            } else {
                (data.selectable(visible) - 1) as usize
            },
        ),
        data.ups(s, visible, n).rewound == s.rewound,
        data.downs(s, visible, n).rewound == s.rewound,
        data.downs_fit(s, visible, n),
    decreases n,
{
    if n > 0 {
        let m = (n - 1) as nat;
        pages_lead_on(data, s, visible, i, m);
        let up = data.ups(s, visible, m);
        let down = data.downs(s, visible, m);
        steps_lead_to_neighbours(data, up, visible, up.selected->0);
        steps_lead_to_neighbours(data, down, visible, down.selected->0);
    }
}

/// Jobs are asked for in every state but the manual one, and in that one if and only if
/// manual jobs are wanted.
pub proof fn all_states_are_asked_for(
    collector: JobCollector,
    config: Config,
    query: JobsQuery,
    state: JobScope,
)
    requires
        collector.asks(config, Some(query)),
    ensures
        query.scopes@.contains(state) <==> state != JobScope::Manual || collector.detail
            == JobDetailMode::WithManual,
        query.pipeline_id == collector.waiting@[0],
{
    let asked = query.scopes@;
    assert(asked[0] == JobScope::Pending);
    assert(asked[1] == JobScope::Running);
    assert(asked[2] == JobScope::Failed);
    assert(asked[3] == JobScope::Success);
    assert(asked[4] == JobScope::Canceled);
    if collector.detail == JobDetailMode::WithManual {
        assert(asked[5] == JobScope::Manual);
    }
}

/// Manual jobs only add to what is asked for: whatever is asked for without them is asked
/// for with them, of the same pipeline and the same project.
pub proof fn manual_jobs_only_add(
    without: JobCollector,
    with: JobCollector,
    config: Config,
    fewer: JobsQuery,
    more: JobsQuery,
    state: JobScope,
)
    requires
        without.detail == JobDetailMode::WithoutManual,
        with.detail == JobDetailMode::WithManual,
        without.waiting@ == with.waiting@,
        without.asks(config, Some(fewer)),
        with.asks(config, Some(more)),
    ensures
        fewer.scopes@.contains(state) ==> more.scopes@.contains(state),
        more.scopes@.contains(state) && !fewer.scopes@.contains(state) <==> state
            == JobScope::Manual,
        fewer.pipeline_id == more.pipeline_id,
        fewer.project == more.project,
        fewer.pages == more.pages,
{
    all_states_are_asked_for(without, config, fewer, state);
    all_states_are_asked_for(with, config, more, state);
}

/// No state is asked for twice.
pub proof fn states_are_asked_for_once(detail: JobDetailMode, i: int, j: int)
    requires
        0 <= i < j < scopes(detail).len(),
    ensures
        scopes(detail)[i] != scopes(detail)[j],
{
}

/// The server is asked as long as a pipeline is left, for all the jobs of the next one in the
/// line, in the configured project; and once none is left, it is asked no more.
pub proof fn pipelines_are_asked_for_in_their_order(
    collector: JobCollector,
    config: Config,
    query: Option<JobsQuery>,
)
    requires
        collector.asks(config, query),
    ensures
        query is None <==> collector.waiting@.len() == 0,
        query matches Some(query) ==> {
            &&& query.pipeline_id == collector.waiting@.first()
            &&& query.project == config.project
            &&& query.pages == Pages::All
        },
{
}

/// What the server answers on a pipeline takes it out of the line and puts its jobs behind
/// those that are there. Each link to another pipeline puts that one at the end of the line;
/// a link that leads nowhere changes nothing.
pub proof fn linked_pipelines_queue_up(
    collector: JobCollector,
    jobs: Seq<Job>,
    bridges: Seq<Bridge>,
    after: JobCollector,
    bridge: Bridge,
    longer: JobCollector,
)
    requires
        collector.waiting@.len() > 0,
        collector.added(jobs, bridges, after),
        collector.added(jobs, bridges.push(bridge), longer),
    ensures
        bridges.len() == 0 ==> collector.waiting@ == seq![collector.waiting@[0]] + after.waiting@,
        longer.waiting@ == match bridge.downstream_pipeline {
            Some(pipeline) => after.waiting@.push(pipeline.id),
            None => after.waiting@,
        },
        after.jobs@.len() == collector.jobs@.len() + jobs.len(),
        after.jobs@.take(collector.jobs@.len() as int) == collector.jobs@,
        after.jobs@.skip(collector.jobs@.len() as int) == jobs,
        after.detail == collector.detail,
        longer.jobs@ == after.jobs@,
{
    let leads = |bridge: Bridge| bridge.downstream_pipeline is Some;
    assert(bridges.push(bridge).drop_last() =~= bridges);
    assert(bridges.push(bridge).filter(leads) == if leads(bridge) {
        bridges.filter(leads).push(bridge)
    } else {
        bridges.filter(leads)
    }) by {
        reveal(Seq::filter);
    }
    assert(bridges.len() == 0 ==> bridges.filter(leads).len() == 0) by {
        reveal(Seq::filter);
    }
    assert(after.jobs@.take(collector.jobs@.len() as int) =~= collector.jobs@);
    assert(after.jobs@.skip(collector.jobs@.len() as int) =~= jobs);
}

/// A job of both pipelines is shown if it has changed, or if unchanged ones are not hidden;
/// a job of one of them is never shown. It has changed if its two statuses differ.
pub proof fn changed_jobs_are_shown(diff: JobDiff, hide_unchanged: bool)
    ensures
        diff.changed() <==> (diff matches JobDiff::Both(a, b) && a.1.status@ != b.1.status@),
        diff.shown(hide_unchanged) <==> diff is Both && (diff.changed() || !hide_unchanged),
{
}

/// The line for a job begins with its name, filled up to forty characters, and then tells
/// its older status and its newer one.
pub proof fn changes_are_told_in_order(diff: JobDiff)
    requires
        diff is Both,
    ensures
        ({
            let name = diff->Both_0.0@;
            let width = if name.len() < 40 {
                40
            } else {
                name.len() as int
            };
            &&& diff.line().take(name.len() as int) == name
            &&& forall|i: int| name.len() <= i < width ==> #[trigger] diff.line()[i] == ' '
            &&& diff.line().skip(width) == ": "@ + diff->Both_0.1.status@ + " -> "@
                + diff->Both_1.1.status@
        }),
{
    let name = diff->Both_0.0@;
    let width = if name.len() < 40 {
        40
    } else {
        name.len() as int
    };
    assert(diff.line().take(name.len() as int) =~= name);
    assert(diff.line().skip(width) =~= ": "@ + diff->Both_0.1.status@ + " -> "@
        + diff->Both_1.1.status@);
}

/// With one more job a report grows by one line at its end, if and only if the status of that
/// job changed; without jobs it is empty.
pub proof fn reports_grow_with_the_changes(diffs: Seq<JobDiff>, diff: JobDiff)
    ensures
        diffs.len() == 0 ==> change_report(diffs).len() == 0,
        change_report(diffs.push(diff)) == if (diff matches JobDiff::Both(a, b) && a.1.status@
            != b.1.status@) {
            change_report(diffs).push(diff.line())
        } else {
            change_report(diffs)
        },
{
    reveal(Seq::filter);
    assert(diffs.push(diff).drop_last() =~= diffs);
    assert(diff.changed() ==> change_report(diffs.push(diff)) =~= change_report(diffs).push(
        diff.line(),
    ));
}

/// A report has a line for each job whose status changed, and no others.
pub proof fn reports_have_the_changes(diffs: Seq<JobDiff>, line: Seq<char>)
    ensures
        change_report(diffs).contains(line) <==> exists|i: int|
            {
                &&& 0 <= i < diffs.len()
                &&& (#[trigger] diffs[i]) is Both
                &&& diffs[i]->Both_0.1.status@ != diffs[i]->Both_1.1.status@
                &&& diffs[i].line() == line
            },
    decreases diffs.len(),
{
    let report = change_report(diffs);
    reveal(Seq::filter);
    if diffs.len() > 0 {
        let rest = diffs.drop_last();
        let last = diffs.last();
        reports_have_the_changes(rest, line);
        assert(diffs[diffs.len() - 1] == last);
        assert(forall|i: int| 0 <= i < rest.len() ==> #[trigger] rest[i] == diffs[i]);
        let before = change_report(rest);
        if last.changed() {
            assert(report =~= before.push(last.line()));
            if before.contains(line) {
                let k = choose|k: int| 0 <= k < before.len() && before[k] == line;
                assert(report[k] == line);
            }
            if last.line() == line {
                assert(report[before.len() as int] == line);
            }
            if report.contains(line) {
                let k = choose|k: int| 0 <= k < report.len() && report[k] == line;
                if k < before.len() {
                    assert(before[k] == line);
                }
            }
        } else {
            assert(report =~= before);
        }
        if exists|i: int|
            {
                &&& 0 <= i < rest.len()
                &&& (#[trigger] rest[i]) is Both
                &&& rest[i]->Both_0.1.status@ != rest[i]->Both_1.1.status@
                &&& rest[i].line() == line
            } {
            let i = choose|i: int|
                {
                    &&& 0 <= i < rest.len()
                    &&& (#[trigger] rest[i]) is Both
                    &&& rest[i]->Both_0.1.status@ != rest[i]->Both_1.1.status@
                    &&& rest[i].line() == line
                };
            assert(diffs[i] is Both);
        }
        if exists|i: int|
            {
                &&& 0 <= i < diffs.len()
                &&& (#[trigger] diffs[i]) is Both
                &&& diffs[i]->Both_0.1.status@ != diffs[i]->Both_1.1.status@
                &&& diffs[i].line() == line
            } {
            let i = choose|i: int|
                {
                    &&& 0 <= i < diffs.len()
                    &&& (#[trigger] diffs[i]) is Both
                    &&& diffs[i]->Both_0.1.status@ != diffs[i]->Both_1.1.status@
                    &&& diffs[i].line() == line
                };
            if i < rest.len() {
                assert(rest[i] is Both);
            }
        }
    } else {
        assert(report =~= Seq::<Seq<char>>::empty());
    }
}

} // verus!
