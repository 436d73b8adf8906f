//! The difference between the jobs of two pipelines.

#[allow(unused_imports)]
use crate::jobs::{has_name, place_is_unique, place_of, sorted_by_name};
use crate::jobs::JobMap;
use crate::model::Job;
use crate::names::compare_names;
#[allow(unused_imports)]
use crate::names::{name_before, name_transitive, name_trichotomy};
#[allow(unused_imports)]
use crate::text::{padded_right, views};
use crate::text::{pad_right, same_text};
use vstd::prelude::*;

verus! {

/// A name with the job that has it in the older pipeline, in the newer one, or in
/// both.
#[derive(Debug)]
pub enum JobDiff {
    Left((String, Job)),
    Right((String, Job)),
    Both((String, Job), (String, Job)),
}

impl Clone for JobDiff {
    fn clone(&self) -> (copy: Self)
        ensures
            copy == *self,
    {
        match self {
            JobDiff::Left(a) => JobDiff::Left((a.0.clone(), a.1.clone())),
            JobDiff::Right(b) => JobDiff::Right((b.0.clone(), b.1.clone())),
            JobDiff::Both(a, b) => JobDiff::Both(
                (a.0.clone(), a.1.clone()),
                (b.0.clone(), b.1.clone()),
            ),
        }
    }
}

impl JobDiff {
    /// The name that this is about.
    pub open spec fn name(self) -> Seq<char> {
        match self {
            JobDiff::Left(a) => a.0@,
            JobDiff::Right(b) => b.0@,
            JobDiff::Both(a, _) => a.0@,
        }
    }

    /// Whether the job is in both pipelines, with two different statuses.
    pub open spec fn changed(self) -> bool {
        self matches JobDiff::Both(a, b) && a.1.status@ != b.1.status@
    }

    /// Whether the job has a row in the list of differences.
    pub open spec fn shown(self, hide_unchanged: bool) -> bool {
        self matches JobDiff::Both(a, b) && !(hide_unchanged && a.1.status@ == b.1.status@)
    }

    /// The line that reports the change of a job's status.
    pub open spec fn line(self) -> Seq<char> {
        match self {
            JobDiff::Both(a, b) => padded_right(a.0@, 40) + ": "@ + a.1.status@ + " -> "@
                + b.1.status@,
            _ => Seq::empty(),
        }
    }
}

/// Walks two lists side by side: the smaller of the two names in front comes out
/// first, and equal names come out together.
pub open spec fn merge_join(left: Seq<(String, Job)>, right: Seq<(String, Job)>) -> Seq<JobDiff>
    decreases left.len() + right.len(),
{
    if left.len() == 0 && right.len() == 0 {
        Seq::empty()
    } else if right.len() == 0 || (left.len() > 0 && name_before(left[0].0@, right[0].0@)) {
        seq![JobDiff::Left(left[0])] + merge_join(left.drop_first(), right)
    } else if left.len() == 0 || name_before(right[0].0@, left[0].0@) {
        seq![JobDiff::Right(right[0])] + merge_join(left, right.drop_first())
    } else {
        seq![JobDiff::Both(left[0], right[0])] + merge_join(
            left.drop_first(),
            right.drop_first(),
        )
    }
}

/// `itertools::merge_join_by` of two lists, compared by `compare_names`. The claim is
/// what its documentation says: at each step the lesser item in front comes out
/// alone, equal ones come out together, and what remains of one list comes out alone.
#[verifier::external_body]
fn itertools_merge_join(left: Vec<(String, Job)>, right: Vec<(String, Job)>) -> (merged: Vec<
    JobDiff,
>)
    ensures
        merged@ == merge_join(left@, right@),
{
    itertools::merge_join_by(left, right, |a, b| compare_names(&a.0, &b.0)).map(
        |pair| match pair {
            itertools::EitherOrBoth::Left(a) => JobDiff::Left(a),
            itertools::EitherOrBoth::Right(b) => JobDiff::Right(b),
            itertools::EitherOrBoth::Both(a, b) => JobDiff::Both(a, b),
        },
    ).collect()
}

/// Puts the jobs of two pipelines side by side.
pub fn diff_jobs(from: JobMap, to: JobMap) -> (diff: Vec<JobDiff>)
    ensures
        diff@ == merge_join(from.entries(), to.entries()),
{
    itertools_merge_join(from.into_entries(), to.into_entries())
}

/// Whether a job is in both pipelines, with two different statuses.
fn is_changed(diff: &JobDiff) -> (changed: bool)
    ensures
        changed == diff.changed(),
{
    match diff {
        JobDiff::Both(a, b) => !same_text(a.1.status.as_str(), b.1.status.as_str()),
        _ => false,
    }
}

/// The line that reports the change of a job's status.
fn change_line(diff: &JobDiff) -> (line: String)
    ensures
        line@ == diff.line(),
{
    match diff {
        JobDiff::Both(a, b) => pad_right(a.0.as_str(), 40).concat(": ").concat(
            a.1.status.as_str(),
        ).concat(" -> ").concat(b.1.status.as_str()),
        _ => String::new(),
    }
}

/// The lines that report the jobs whose status changed.
pub open spec fn change_report(diffs: Seq<JobDiff>) -> Seq<Seq<char>> {
    diffs.filter(|d: JobDiff| d.changed()).map_values(|d: JobDiff| d.line())
}

/// Filtering a sequence that grew by one item.
pub(crate) proof fn filter_push<A>(items: Seq<A>, i: int, keep: spec_fn(A) -> bool)
    requires
        0 <= i < items.len(),
    ensures
        items.take(i + 1).filter(keep) == if keep(items[i]) {
            items.take(i).filter(keep).push(items[i])
        } else {
            items.take(i).filter(keep)
        },
{
    reveal(Seq::filter);
    assert(items.take(i + 1).drop_last() =~= items.take(i));
}

/// Reports the jobs whose status changed, one line each.
pub fn report_changes(diffs: &Vec<JobDiff>) -> (lines: Vec<String>)
    ensures
        views(lines@) == change_report(diffs@),
{
    let mut lines: Vec<String> = Vec::new();
    let mut i: usize = 0;
    let ghost keep = |d: JobDiff| d.changed();
    proof {
        reveal(Seq::filter);
        assert(diffs@.take(0) =~= Seq::<JobDiff>::empty());
    }
    while i < diffs.len()
        invariant
            i <= diffs.len(),
            keep == (|d: JobDiff| d.changed()),
            views(lines@) =~= diffs@.take(i as int).filter(keep).map_values(
                |d: JobDiff| d.line(),
            ),
        decreases diffs.len() - i,
    {
        proof {
            filter_push(diffs@, i as int, keep);
        }
        if is_changed(&diffs[i]) {
            let ghost before = lines@;
            let line = change_line(&diffs[i]);
            lines.push(line);
            assert(views(lines@) =~= views(before).push(line@));
        }
        i += 1;
    }
    assert(diffs@.take(i as int) =~= diffs@);
    lines
}

/// The differences that have a row in the list.
pub fn shown_diffs(diffs: &Vec<JobDiff>, hide_unchanged: bool) -> (shown: Vec<JobDiff>)
    ensures
        shown@ == diffs@.filter(|d: JobDiff| d.shown(hide_unchanged)),
{
    let mut shown: Vec<JobDiff> = Vec::new();
    let mut i: usize = 0;
    let ghost keep = |d: JobDiff| d.shown(hide_unchanged);
    proof {
        reveal(Seq::filter);
        assert(diffs@.take(0) =~= Seq::<JobDiff>::empty());
    }
    while i < diffs.len()
        invariant
            i <= diffs.len(),
            keep == (|d: JobDiff| d.shown(hide_unchanged)),
            shown@ =~= diffs@.take(i as int).filter(keep),
        decreases diffs.len() - i,
    {
        proof {
            filter_push(diffs@, i as int, keep);
        }
        let visible = match &diffs[i] {
            JobDiff::Both(a, b) => !(hide_unchanged && same_text(
                a.1.status.as_str(),
                b.1.status.as_str(),
            )),
            _ => false,
        };
        if visible {
            shown.push(diffs[i].clone());
        }
        i += 1;
    }
    assert(diffs@.take(i as int) =~= diffs@);
    shown
}

/// Whether every name of `entries` comes after `name`.
spec fn all_after(entries: Seq<(String, Job)>, name: Seq<char>) -> bool {
    forall|i: int| 0 <= i < entries.len() ==> name_before(name, (#[trigger] entries[i]).0@)
}

proof fn rest_after_first(entries: Seq<(String, Job)>)
    requires
        sorted_by_name(entries),
        entries.len() > 0,
    ensures
        sorted_by_name(entries.drop_first()),
        all_after(entries.drop_first(), entries[0].0@),
{
    assert forall|i: int, j: int| 0 <= i < j < entries.drop_first().len() implies name_before(
        (#[trigger] entries.drop_first()[i]).0@,
        (#[trigger] entries.drop_first()[j]).0@,
    ) by {
        assert(entries.drop_first()[i] == entries[i + 1]);
        assert(entries.drop_first()[j] == entries[j + 1]);
    }
    assert forall|i: int| 0 <= i < entries.drop_first().len() implies name_before(
        entries[0].0@,
        (#[trigger] entries.drop_first()[i]).0@,
    ) by {
        assert(entries.drop_first()[i] == entries[i + 1]);
    }
}

proof fn after_front(entries: Seq<(String, Job)>, name: Seq<char>)
    requires
        sorted_by_name(entries),
        entries.len() == 0 || name_before(name, entries[0].0@),
    ensures
        all_after(entries, name),
{
    assert forall|i: int| 0 <= i < entries.len() implies name_before(
        name,
        (#[trigger] entries[i]).0@,
    ) by {
        if i > 0 {
            name_transitive(name, entries[0].0@, entries[i].0@);
        }
    }
}

proof fn merged_names_after(left: Seq<(String, Job)>, right: Seq<(String, Job)>, name: Seq<char>)
    requires
        all_after(left, name),
        all_after(right, name),
    ensures
        forall|k: int|
            0 <= k < merge_join(left, right).len() ==> name_before(
                name,
                (#[trigger] merge_join(left, right)[k]).name(),
            ),
    decreases left.len() + right.len(),
{
    let merged = merge_join(left, right);
    if left.len() > 0 {
        assert(all_after(left.drop_first(), name)) by {
            assert forall|i: int| 0 <= i < left.drop_first().len() implies name_before(
                name,
                (#[trigger] left.drop_first()[i]).0@,
            ) by {
                assert(left.drop_first()[i] == left[i + 1]);
            }
        }
    }
    if right.len() > 0 {
        assert(all_after(right.drop_first(), name)) by {
            assert forall|i: int| 0 <= i < right.drop_first().len() implies name_before(
                name,
                (#[trigger] right.drop_first()[i]).0@,
            ) by {
                assert(right.drop_first()[i] == right[i + 1]);
            }
        }
    }
    if left.len() == 0 && right.len() == 0 {
    } else {
        let rest = if right.len() == 0 || (left.len() > 0 && name_before(
            left[0].0@,
            right[0].0@,
        )) {
            merged_names_after(left.drop_first(), right, name);
            merge_join(left.drop_first(), right)
        } else if left.len() == 0 || name_before(right[0].0@, left[0].0@) {
            merged_names_after(left, right.drop_first(), name);
            merge_join(left, right.drop_first())
        } else {
            merged_names_after(left.drop_first(), right.drop_first(), name);
            merge_join(left.drop_first(), right.drop_first())
        };
        assert forall|k: int| 0 <= k < merged.len() implies name_before(
            name,
            (#[trigger] merged[k]).name(),
        ) by {
            if k > 0 {
                assert(merged[k] == rest[k - 1]);
            } else {
                assert(left.len() > 0 ==> name_before(name, left[0].0@));
                assert(right.len() > 0 ==> name_before(name, right[0].0@));
            }
        }
    }
}

/// Each name of two pipelines comes out once, and the names ascend.
pub proof fn diff_ascends(left: Seq<(String, Job)>, right: Seq<(String, Job)>)
    requires
        sorted_by_name(left),
        sorted_by_name(right),
    ensures
        forall|i: int, j: int|
            0 <= i < j < merge_join(left, right).len() ==> name_before(
                (#[trigger] merge_join(left, right)[i]).name(),
                (#[trigger] merge_join(left, right)[j]).name(),
            ),
    decreases left.len() + right.len(),
{
    let merged = merge_join(left, right);
    if left.len() > 0 {
        rest_after_first(left);
    }
    if right.len() > 0 {
        rest_after_first(right);
    }
    if left.len() == 0 && right.len() == 0 {
    } else {
        let rest = if right.len() == 0 || (left.len() > 0 && name_before(
            left[0].0@,
            right[0].0@,
        )) {
            after_front(right, left[0].0@);
            merged_names_after(left.drop_first(), right, left[0].0@);
            diff_ascends(left.drop_first(), right);
            merge_join(left.drop_first(), right)
        } else if left.len() == 0 || name_before(right[0].0@, left[0].0@) {
            after_front(left, right[0].0@);
            merged_names_after(left, right.drop_first(), right[0].0@);
            diff_ascends(left, right.drop_first());
            merge_join(left, right.drop_first())
        } else {
            name_trichotomy(left[0].0@, right[0].0@);
            merged_names_after(left.drop_first(), right.drop_first(), left[0].0@);
            diff_ascends(left.drop_first(), right.drop_first());
            merge_join(left.drop_first(), right.drop_first())
        };
        assert forall|i: int, j: int| 0 <= i < j < merged.len() implies name_before(
            (#[trigger] merged[i]).name(),
            (#[trigger] merged[j]).name(),
        ) by {
            assert(merged[j] == rest[j - 1]);
            if i > 0 {
                assert(merged[i] == rest[i - 1]);
            }
        }
    }
}

/// Whether a difference is true of two lists: its jobs are theirs, and a job that
/// comes out alone has no counterpart.
pub open spec fn holds_of(
    diff: JobDiff,
    left: Seq<(String, Job)>,
    right: Seq<(String, Job)>,
) -> bool {
    match diff {
        JobDiff::Left(a) => left.contains(a) && !has_name(right, a.0@),
        JobDiff::Right(b) => right.contains(b) && !has_name(left, b.0@),
        JobDiff::Both(a, b) => left.contains(a) && right.contains(b) && a.0@ == b.0@,
    }
}

/// The difference for a job of the older pipeline.
pub open spec fn diff_for_left(a: (String, Job), right: Seq<(String, Job)>) -> JobDiff {
    if has_name(right, a.0@) {
        JobDiff::Both(a, right[place_of(right, a.0@)])
    } else {
        JobDiff::Left(a)
    }
}

/// The difference for a job of the newer pipeline.
pub open spec fn diff_for_right(left: Seq<(String, Job)>, b: (String, Job)) -> JobDiff {
    if has_name(left, b.0@) {
        JobDiff::Both(left[place_of(left, b.0@)], b)
    } else {
        JobDiff::Right(b)
    }
}

proof fn not_after_itself(entries: Seq<(String, Job)>, name: Seq<char>)
    requires
        all_after(entries, name),
    ensures
        !has_name(entries, name),
{
    if has_name(entries, name) {
        name_trichotomy(name, entries[place_of(entries, name)].0@);
    }
}

/// Leaving out the first entry keeps the place of every other name.
proof fn place_without_first(entries: Seq<(String, Job)>, name: Seq<char>)
    requires
        sorted_by_name(entries),
        entries.len() > 0,
        entries[0].0@ != name,
    ensures
        has_name(entries, name) == has_name(entries.drop_first(), name),
        has_name(entries, name) ==> entries[place_of(entries, name)] == entries.drop_first()[place_of(
            entries.drop_first(),
            name,
        )],
{
    let rest = entries.drop_first();
    rest_after_first(entries);
    if has_name(entries, name) {
        let p = place_of(entries, name);
        assert(rest[p - 1] == entries[p]);
        place_is_unique(rest, p - 1);
    }
    if has_name(rest, name) {
        let p = place_of(rest, name);
        assert(entries[p + 1] == rest[p]);
    }
}

/// The difference of two pipelines is true of them and leaves nothing out: each job
/// of either comes out, paired with the other's job of that name, where it has one.
pub proof fn diff_is_complete(left: Seq<(String, Job)>, right: Seq<(String, Job)>)
    requires
        sorted_by_name(left),
        sorted_by_name(right),
    ensures
        forall|k: int|
            0 <= k < merge_join(left, right).len() ==> holds_of(
                #[trigger] merge_join(left, right)[k],
                left,
                right,
            ),
        forall|i: int|
            0 <= i < left.len() ==> merge_join(left, right).contains(
                diff_for_left(#[trigger] left[i], right),
            ),
        forall|j: int|
            0 <= j < right.len() ==> merge_join(left, right).contains(
                diff_for_right(left, #[trigger] right[j]),
            ),
    decreases left.len() + right.len(), 1int,
{
    if left.len() > 0 {
        rest_after_first(left);
    }
    if right.len() > 0 {
        rest_after_first(right);
    }
    if left.len() == 0 && right.len() == 0 {
    } else if right.len() == 0 || (left.len() > 0 && name_before(left[0].0@, right[0].0@)) {
        after_front(right, left[0].0@);
        not_after_itself(right, left[0].0@);
        left_step(left, right);
    } else if left.len() == 0 || name_before(right[0].0@, left[0].0@) {
        after_front(left, right[0].0@);
        not_after_itself(left, right[0].0@);
        right_step(left, right);
    } else {
        name_trichotomy(left[0].0@, right[0].0@);
        both_step(left, right);
    }
}

proof fn left_step(left: Seq<(String, Job)>, right: Seq<(String, Job)>)
    requires
        sorted_by_name(left),
        sorted_by_name(right),
        left.len() > 0,
        right.len() == 0 || name_before(left[0].0@, right[0].0@),
        all_after(right, left[0].0@),
        !has_name(right, left[0].0@),
    ensures
        forall|k: int|
            0 <= k < merge_join(left, right).len() ==> holds_of(
                #[trigger] merge_join(left, right)[k],
                left,
                right,
            ),
        forall|i: int|
            0 <= i < left.len() ==> merge_join(left, right).contains(
                diff_for_left(#[trigger] left[i], right),
            ),
        forall|j: int|
            0 <= j < right.len() ==> merge_join(left, right).contains(
                diff_for_right(left, #[trigger] right[j]),
            ),
    decreases left.len() + right.len(), 0int,
{
    let merged = merge_join(left, right);
    let rest = merge_join(left.drop_first(), right);
    rest_after_first(left);
    diff_is_complete(left.drop_first(), right);
    assert(merged =~= seq![JobDiff::Left(left[0])] + rest);
    assert forall|k: int| 0 <= k < merged.len() implies holds_of(
        #[trigger] merged[k],
        left,
        right,
    ) by {
        if k > 0 {
            assert(merged[k] == rest[k - 1]);
            assert(holds_of(rest[k - 1], left.drop_first(), right));
            match merged[k] {
                JobDiff::Left(a) => in_rest(left, a),
                JobDiff::Right(b) => {
                    let p = choose|p: int| 0 <= p < right.len() && right[p] == b;
                    name_trichotomy(left[0].0@, right[p].0@);
                    place_without_first(left, b.0@);
                },
                JobDiff::Both(a, b) => in_rest(left, a),
            }
        } else {
            assert(left.contains(left[0]));
        }
    }
    assert forall|i: int| 0 <= i < left.len() implies merged.contains(
        diff_for_left(#[trigger] left[i], right),
    ) by {
        if i == 0 {
            assert(merged[0] == diff_for_left(left[0], right));
        } else {
            assert(left.drop_first()[i - 1] == left[i]);
            in_tail(merged, rest, diff_for_left(left[i], right));
        }
    }
    assert forall|j: int| 0 <= j < right.len() implies merged.contains(
        diff_for_right(left, #[trigger] right[j]),
    ) by {
        name_trichotomy(left[0].0@, right[j].0@);
        place_without_first(left, right[j].0@);
        assert(diff_for_right(left, right[j]) == diff_for_right(left.drop_first(), right[j]));
        in_tail(merged, rest, diff_for_right(left, right[j]));
    }
}

proof fn right_step(left: Seq<(String, Job)>, right: Seq<(String, Job)>)
    requires
        sorted_by_name(left),
        sorted_by_name(right),
        right.len() > 0,
        left.len() == 0 || (name_before(right[0].0@, left[0].0@) && !name_before(
            left[0].0@,
            right[0].0@,
        )),
        all_after(left, right[0].0@),
        !has_name(left, right[0].0@),
    ensures
        forall|k: int|
            0 <= k < merge_join(left, right).len() ==> holds_of(
                #[trigger] merge_join(left, right)[k],
                left,
                right,
            ),
        forall|i: int|
            0 <= i < left.len() ==> merge_join(left, right).contains(
                diff_for_left(#[trigger] left[i], right),
            ),
        forall|j: int|
            0 <= j < right.len() ==> merge_join(left, right).contains(
                diff_for_right(left, #[trigger] right[j]),
            ),
    decreases left.len() + right.len(), 0int,
{
    let merged = merge_join(left, right);
    let rest = merge_join(left, right.drop_first());
    rest_after_first(right);
    diff_is_complete(left, right.drop_first());
    assert(merged =~= seq![JobDiff::Right(right[0])] + rest);
    assert forall|k: int| 0 <= k < merged.len() implies holds_of(
        #[trigger] merged[k],
        left,
        right,
    ) by {
        if k > 0 {
            assert(merged[k] == rest[k - 1]);
            assert(holds_of(rest[k - 1], left, right.drop_first()));
            match merged[k] {
                JobDiff::Left(a) => {
                    let p = choose|p: int| 0 <= p < left.len() && left[p] == a;
                    name_trichotomy(right[0].0@, left[p].0@);
                    place_without_first(right, a.0@);
                },
                JobDiff::Right(b) => in_rest(right, b),
                JobDiff::Both(a, b) => in_rest(right, b),
            }
        } else {
            assert(right.contains(right[0]));
        }
    }
    assert forall|i: int| 0 <= i < left.len() implies merged.contains(
        diff_for_left(#[trigger] left[i], right),
    ) by {
        name_trichotomy(right[0].0@, left[i].0@);
        place_without_first(right, left[i].0@);
        assert(diff_for_left(left[i], right) == diff_for_left(left[i], right.drop_first()));
        in_tail(merged, rest, diff_for_left(left[i], right));
    }
    assert forall|j: int| 0 <= j < right.len() implies merged.contains(
        diff_for_right(left, #[trigger] right[j]),
    ) by {
        if j == 0 {
            assert(merged[0] == diff_for_right(left, right[0]));
        } else {
            assert(right.drop_first()[j - 1] == right[j]);
            in_tail(merged, rest, diff_for_right(left, right[j]));
        }
    }
}

proof fn both_step(left: Seq<(String, Job)>, right: Seq<(String, Job)>)
    requires
        sorted_by_name(left),
        sorted_by_name(right),
        left.len() > 0,
        right.len() > 0,
        left[0].0@ == right[0].0@,
    ensures
        forall|k: int|
            0 <= k < merge_join(left, right).len() ==> holds_of(
                #[trigger] merge_join(left, right)[k],
                left,
                right,
            ),
        forall|i: int|
            0 <= i < left.len() ==> merge_join(left, right).contains(
                diff_for_left(#[trigger] left[i], right),
            ),
        forall|j: int|
            0 <= j < right.len() ==> merge_join(left, right).contains(
                diff_for_right(left, #[trigger] right[j]),
            ),
    decreases left.len() + right.len(), 0int,
{
    let merged = merge_join(left, right);
    let rest = merge_join(left.drop_first(), right.drop_first());
    rest_after_first(left);
    rest_after_first(right);
    name_trichotomy(left[0].0@, right[0].0@);
    name_trichotomy(right[0].0@, left[0].0@);
    diff_is_complete(left.drop_first(), right.drop_first());
    assert(merged =~= seq![JobDiff::Both(left[0], right[0])] + rest);
    assert forall|k: int| 0 <= k < merged.len() implies holds_of(
        #[trigger] merged[k],
        left,
        right,
    ) by {
        if k > 0 {
            assert(merged[k] == rest[k - 1]);
            assert(holds_of(rest[k - 1], left.drop_first(), right.drop_first()));
            match merged[k] {
                JobDiff::Left(a) => {
                    in_rest(left, a);
                    name_trichotomy(right[0].0@, a.0@);
                    place_without_first(right, a.0@);
                },
                JobDiff::Right(b) => {
                    in_rest(right, b);
                    name_trichotomy(left[0].0@, b.0@);
                    place_without_first(left, b.0@);
                },
                JobDiff::Both(a, b) => {
                    in_rest(left, a);
                    in_rest(right, b);
                },
            }
        } else {
            assert(left.contains(left[0]));
            assert(right.contains(right[0]));
        }
    }
    assert forall|i: int| 0 <= i < left.len() implies merged.contains(
        diff_for_left(#[trigger] left[i], right),
    ) by {
        if i == 0 {
            place_is_unique(right, 0);
            assert(merged[0] == diff_for_left(left[0], right));
        } else {
            assert(left.drop_first()[i - 1] == left[i]);
            name_trichotomy(right[0].0@, left[i].0@);
            place_without_first(right, left[i].0@);
            in_tail(merged, rest, diff_for_left(left[i], right));
        }
    }
    assert forall|j: int| 0 <= j < right.len() implies merged.contains(
        diff_for_right(left, #[trigger] right[j]),
    ) by {
        if j == 0 {
            place_is_unique(left, 0);
            assert(merged[0] == diff_for_right(left, right[0]));
        } else {
            assert(right.drop_first()[j - 1] == right[j]);
            name_trichotomy(left[0].0@, right[j].0@);
            place_without_first(left, right[j].0@);
            in_tail(merged, rest, diff_for_right(left, right[j]));
        }
    }
}

/// An item of the rest of a list is an item of the list, behind its first.
proof fn in_rest(entries: Seq<(String, Job)>, entry: (String, Job))
    requires
        sorted_by_name(entries),
        entries.len() > 0,
        entries.drop_first().contains(entry),
    ensures
        entries.contains(entry),
        name_before(entries[0].0@, entry.0@),
{
    let p = choose|p: int| 0 <= p < entries.drop_first().len() && entries.drop_first()[p] == entry;
    assert(entries[p + 1] == entry);
}

proof fn in_tail(merged: Seq<JobDiff>, rest: Seq<JobDiff>, diff: JobDiff)
    requires
        merged.len() == rest.len() + 1,
        forall|k: int| 0 <= k < rest.len() ==> #[trigger] merged[k + 1] == rest[k],
        rest.contains(diff),
    ensures
        merged.contains(diff),
{
    let k = choose|k: int| 0 <= k < rest.len() && rest[k] == diff;
    assert(merged[k + 1] == diff);
}

/// A change is reported exactly for the names that are in both pipelines with two
/// different statuses.
pub proof fn changes_are_reported(left: Seq<(String, Job)>, right: Seq<(String, Job)>, name: Seq<
    char,
>)
    requires
        sorted_by_name(left),
        sorted_by_name(right),
    ensures
        (exists|k: int|
            0 <= k < merge_join(left, right).len() && (#[trigger] merge_join(left, right)[k]).changed()
                && merge_join(left, right)[k].name() == name) <==> (has_name(left, name) && has_name(
            right,
            name,
        ) && left[place_of(left, name)].1.status@ != right[place_of(right, name)].1.status@),
{
    let merged = merge_join(left, right);
    diff_is_complete(left, right);
    if has_name(left, name) && has_name(right, name) && left[place_of(left, name)].1.status@
        != right[place_of(right, name)].1.status@ {
        let d = diff_for_left(left[place_of(left, name)], right);
        assert(merged.contains(d));
        let k = choose|k: int| 0 <= k < merged.len() && merged[k] == d;
        assert(merged[k].changed());
    }
    if exists|k: int|
        0 <= k < merged.len() && (#[trigger] merged[k]).changed() && merged[k].name() == name {
        let k = choose|k: int|
            0 <= k < merged.len() && (#[trigger] merged[k]).changed() && merged[k].name() == name;
        assert(holds_of(merged[k], left, right));
        if let JobDiff::Both(a, b) = merged[k] {
            let p = choose|p: int| 0 <= p < left.len() && left[p] == a;
            let q = choose|q: int| 0 <= q < right.len() && right[q] == b;
            place_is_unique(left, p);
            place_is_unique(right, q);
        }
    }
}

} // verus!
