//! Data that is fetched again after a while, and the selected item of a list of it.

use std::time::{Duration, Instant};
use vstd::prelude::*;

verus! {

/// A reading of the machine's clock. Nothing is known of its value.
#[verifier::external_type_specification]
#[verifier::external_body]
pub struct ExInstant(std::time::Instant);

/// `std::time::Instant::elapsed`: the time since `then`. It depends on the clock, so
/// nothing is claimed of it.
pub assume_specification[ Instant::elapsed ](then: &Instant) -> (age: Duration)
;

/// `std::time::Duration::as_nanos`: a duration in nanoseconds. A duration is opaque
/// here, so nothing is claimed of the number.
pub assume_specification[ Duration::as_nanos ](duration: &Duration) -> (nanos: u128)
;

/// The nanoseconds since `then`, by the machine's clock.
pub(crate) fn age_nanos(then: &Instant) -> u128 {
    then.elapsed().as_nanos()
}

/// The nanoseconds since `stamp`, by the machine's clock; none, where there is no stamp.
pub(crate) fn age_of(stamp: Option<&Instant>) -> (age: u128)
    ensures
        stamp is None ==> age == 0,
{
    match stamp {
        Some(then) => age_nanos(then),
        None => 0,
    }
}

/// The selected item of a list.
#[derive(Debug, Clone, Copy, PartialEq, Eq, Structural)]
pub struct Selection {
    pub selected: Option<usize>,
    /// Whether the selection was given up since the list was last drawn, so that the
    /// list is shown from its beginning again.
    pub rewound: bool,
}

impl Selection {
    /// The selection after `selected` is selected.
    pub open spec fn moved(self, selected: Option<usize>) -> Selection {
        Selection { selected, rewound: self.rewound || selected is None }
    }

    /// Nothing is selected.
    pub fn new() -> (selection: Selection)
        ensures
            selection == (Selection { selected: None, rewound: false }),
    {
        Selection { selected: None, rewound: false }
    }

    /// Selects an item, or nothing.
    pub fn select(&mut self, selected: Option<usize>)
        ensures
            *final(self) == old(self).moved(selected),
    {
        if selected.is_none() {
            self.rewound = true;
        }
        self.selected = selected;
    }

    /// Tells whether the list is to be shown from its beginning, and takes note that
    /// it now is.
    pub fn take_rewound(&mut self) -> (rewound: bool)
        ensures
            rewound == old(self).rewound,
            *final(self) == (Selection { rewound: false, ..*old(self) }),
    {
        let rewound = self.rewound;
        self.rewound = false;
        rewound
    }
}

/// Data with the time of its last update, and whether it is to be fetched again.
#[derive(Debug)]
pub struct Updatable<T> {
    pub update: bool,
    pub data: Option<(Instant, T)>,
}

impl<T> Updatable<T> {
    /// Whether data that is `age` nanoseconds old is to be fetched again, when it
    /// lasts for `dur` milliseconds.
    pub open spec fn expired(self, age: u128, dur: u64) -> bool {
        self.data is None || age >= dur * 1_000_000
    }

    /// What is left after the age of the data was looked at.
    pub open spec fn after_check(self, age: u128, dur: u64) -> Updatable<T> {
        Updatable { update: self.update || self.expired(age, dur), data: self.data }
    }

    /// No data yet.
    pub fn new() -> (updatable: Updatable<T>)
        ensures
            !updatable.update,
            updatable.data is None,
    {
        Updatable { update: false, data: None }
    }

    /// The time of the last update, if there was one.
    pub fn stamp(&self) -> (stamp: Option<&Instant>)
        ensures
            match (stamp, self.data) {
                (Some(stamp), Some((then, _))) => *stamp == then,
                (None, None) => true,
                _ => false,
            },
    {
        match &self.data {
            Some((then, _)) => Some(then),
            None => None,
        }
    }

    /// Asks for an update once the data is `dur` milliseconds old, or missing. Tells
    /// whether that is new.
    pub fn check_expiry(&mut self, dur: u64) -> (asked: bool)
        ensures
            exists|age: u128| *final(self) == #[trigger] old(self).after_check(age, dur),
            asked == (!old(self).update && final(self).update),
    {
        let age = age_of(self.stamp());
        self.check_expiry_after(age, dur)
    }

    /// Asks for an update if data that is `age` nanoseconds old lasts for no more
    /// than `dur` milliseconds, or if there is none. Tells whether that is new.
    pub fn check_expiry_after(&mut self, age: u128, dur: u64) -> (asked: bool)
        ensures
            *final(self) == old(self).after_check(age, dur),
            asked == (!old(self).update && old(self).expired(age, dur)),
    {
        let update = self.update;
        if self.data.is_some() {
            if age >= dur as u128 * 1_000_000 {
                self.update = true;
            }
        } else {
            self.update = true;
        }
        !update && self.update
    }

    /// Takes note of an update.
    pub fn updated(&mut self)
        ensures
            *final(self) == (Updatable { update: false, data: old(self).data }),
    {
        self.update = false;
    }
}

impl<T> Updatable<Vec<T>> {
    /// The items; none, where there is no data.
    pub open spec fn items(self) -> Seq<T> {
        match self.data {
            Some((_, items)) => items@,
            None => Seq::empty(),
        }
    }

    /// How many items can be selected, when `visible` of them are shown; all of them
    /// are where it is missing.
    pub open spec fn selectable(self, visible: Option<usize>) -> nat {
        match (self.data, visible) {
            (None, _) => 0,
            (Some((_, items)), None) => items.len() as nat,
            (Some((_, items)), Some(visible)) => if items.len() < visible {
                items.len() as nat
            } else {
                visible as nat
            },
        }
    }

    /// `s`, moved to where it can be: to the last item if it is behind it, to the
    /// first if nothing is selected, and to nothing if there is no data.
    pub open spec fn fixed(self, s: Selection, visible: Option<usize>) -> Selection {
        let count = self.selectable(visible);
        if self.data is None {
            s.moved(None)
        } else {
            match s.selected {
                Some(selected) => if 0 < count <= selected {
                    s.moved(Some((count - 1) as usize))
                } else {
                    s
                },
                None => if count > 0 {
                    s.moved(Some(0))
                } else {
                    s.moved(None)
                },
            }
        }
    }

    /// `s` after one step towards the first item.
    pub open spec fn one_up(self, s: Selection, visible: Option<usize>) -> Selection {
        self.fixed(
            match s.selected {
                Some(selected) => if selected > 0 {
                    s.moved(Some((selected - 1) as usize))
                } else {
                    s
                },
                None => s.moved(Some(0)),
            },
            visible,
        )
    }

    /// `s` after one step towards the last item.
    pub open spec fn one_down(self, s: Selection, visible: Option<usize>) -> Selection {
        self.fixed(
            match s.selected {
                Some(selected) => s.moved(Some((selected + 1) as usize)),
                None => s.moved(Some(0)),
            },
            visible,
        )
    }

    /// `s` after `n` steps towards the first item.
    pub open spec fn ups(self, s: Selection, visible: Option<usize>, n: nat) -> Selection
        decreases n,
    {
        if n == 0 {
            s
        } else {
            self.one_up(self.ups(s, visible, (n - 1) as nat), visible)
        }
    }

    /// `s` after `n` steps towards the last item.
    pub open spec fn downs(self, s: Selection, visible: Option<usize>, n: nat) -> Selection
        decreases n,
    {
        if n == 0 {
            s
        } else {
            self.one_down(self.downs(s, visible, (n - 1) as nat), visible)
        }
    }

    /// Whether each of `n` steps towards the last item leads to a place that a number
    /// of the machine can hold.
    pub open spec fn downs_fit(self, s: Selection, visible: Option<usize>, n: nat) -> bool
        decreases n,
    {
        n == 0 || {
            &&& self.downs_fit(s, visible, (n - 1) as nat)
            &&& self.downs(s, visible, (n - 1) as nat).selected != Some(usize::MAX)
        }
    }

    /// Moves a selection to where it can be.
    pub fn fix_selected(&self, s: &mut Selection, visible: Option<usize>)
        ensures
            *final(s) == self.fixed(*old(s), visible),
    {
        if let Some((_, items)) = &self.data {
            let count: usize = match visible {
                Some(visible) => if items.len() < visible {
                    items.len()
                } else {
                    visible
                },
                None => items.len(),
            };
            match s.selected {
                Some(selected) => {
                    if count > 0 && count <= selected {
                        s.select(Some(count - 1));
                    }
                },
                None => {
                    if count > 0 {
                        s.select(Some(0));
                    } else {
                        s.select(None);
                    }
                },
            }
        } else {
            s.select(None);
        }
    }

    /// Moves a selection one step towards the first item.
    pub fn up(&self, s: &mut Selection, visible: Option<usize>)
        ensures
            *final(s) == self.one_up(*old(s), visible),
    {
        match s.selected {
            Some(selected) => {
                if selected > 0 {
                    s.select(Some(selected - 1));
                }
            },
            None => s.select(Some(0)),
        }
        self.fix_selected(s, visible)
    }

    /// Moves a selection one step towards the last item.
    pub fn down(&self, s: &mut Selection, visible: Option<usize>)
        requires
            old(s).selected != Some(usize::MAX),
        ensures
            *final(s) == self.one_down(*old(s), visible),
    {
        match s.selected {
            Some(selected) => s.select(Some(selected + 1)),
            None => s.select(Some(0)),
        }
        self.fix_selected(s, visible)
    }

    /// Moves a selection `n` steps towards the first item.
    pub fn page_up(&self, s: &mut Selection, visible: Option<usize>, n: u16)
        ensures
            *final(s) == self.ups(*old(s), visible, n as nat),
    {
        let mut i: u16 = 0;
        while i < n
            invariant
                i <= n,
                *s == self.ups(*old(s), visible, i as nat),
            decreases n - i,
        {
            self.up(s, visible);
            i += 1;
        }
    }

    /// Moves a selection `n` steps towards the last item.
    pub fn page_down(&self, s: &mut Selection, visible: Option<usize>, n: u16)
        requires
            self.downs_fit(*old(s), visible, n as nat),
        ensures
            *final(s) == self.downs(*old(s), visible, n as nat),
    {
        let ghost start = *s;
        let mut i: u16 = 0;
        while i < n
            invariant
                i <= n,
                *s == self.downs(start, visible, i as nat),
                self.downs_fit(start, visible, n as nat),
            decreases n - i,
        {
            proof {
                self.first_downs_fit(start, visible, (i + 1) as nat, n as nat);
            }
            self.down(s, visible);
            i += 1;
        }
    }

    /// Tells whether `n` steps towards the last item can be made.
    pub fn can_page_down(&self, s: &Selection, visible: Option<usize>, n: u16) -> (can: bool)
        ensures
            can == self.downs_fit(*s, visible, n as nat),
    {
        let mut moved = *s;
        let mut i: u16 = 0;
        while i < n
            invariant
                i <= n,
                moved == self.downs(*s, visible, i as nat),
                self.downs_fit(*s, visible, i as nat),
            decreases n - i,
        {
            if let Some(selected) = moved.selected {
                if selected == usize::MAX {
                    proof {
                        if self.downs_fit(*s, visible, n as nat) {
                            self.first_downs_fit(*s, visible, (i + 1) as nat, n as nat);
                        }
                    }
                    return false;
                }
            }
            self.down(&mut moved, visible);
            i += 1;
        }
        true
    }

    proof fn first_downs_fit(self, s: Selection, visible: Option<usize>, m: nat, n: nat)
        requires
            self.downs_fit(s, visible, n),
            m <= n,
        ensures
            self.downs_fit(s, visible, m),
        decreases n,
    {
        if m < n {
            self.first_downs_fit(s, visible, m, (n - 1) as nat);
        }
    }

    /// Moves a selection to the first item.
    pub fn home(&self, s: &mut Selection, visible: Option<usize>)
        ensures
            *final(s) == self.fixed(old(s).moved(Some(0)), visible),
    {
        s.select(Some(0));
        self.fix_selected(s, visible)
    }

    /// Moves a selection to the last item.
    pub fn end(&self, s: &mut Selection, visible: Option<usize>)
        ensures
            *final(s) == self.fixed(old(s).moved(Some(usize::MAX)), visible),
    {
        s.select(Some(usize::MAX));
        self.fix_selected(s, visible)
    }

    /// Wherever a selection is, it is on an item after any step, if there is one to
    /// select.
    pub proof fn selection_in_range(self, s: Selection, visible: Option<usize>)
        requires
            self.selectable(visible) > 0,
        ensures
            self.fixed(s, visible).selected matches Some(i) && i < self.selectable(visible),
            self.one_up(s, visible).selected matches Some(i) && i < self.selectable(visible),
            self.one_down(s, visible).selected matches Some(i) && i < self.selectable(visible),
            self.fixed(s.moved(Some(0)), visible).selected == Some(0usize),
            self.fixed(s.moved(Some(usize::MAX)), visible).selected == Some(
                (self.selectable(visible) - 1) as usize,
            ),
    {
    }

    /// Moving a selection to where it can be leaves nothing to move.
    pub proof fn fixing_twice(self, s: Selection, visible: Option<usize>)
        ensures
            self.fixed(self.fixed(s, visible), visible) == self.fixed(s, visible),
    {
    }

    /// A step down from any item but the last, and a step up, end where they began.
    pub proof fn down_then_up(self, s: Selection, visible: Option<usize>)
        requires
            s.selected matches Some(i) && i + 1 < self.selectable(visible),
        ensures
            self.one_up(self.one_down(s, visible), visible) == s,
    {
    }
}

/// Data that was asked for is not asked for again until it was updated, however long it is
/// meant to last by then.
pub proof fn asked_once<T>(data: Updatable<T>, age: u128, dur: u64, later: u128, later_dur: u64)
    ensures
        data.after_check(age, dur).update ==> data.after_check(age, dur).after_check(
            later,
            later_dur,
        ) == data.after_check(age, dur),
        data.data is None ==> data.after_check(age, dur).update,
{
}

} // verus!
