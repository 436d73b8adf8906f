//! The turns of the monitor: when data is asked for again, and what is put out.

use crate::display::{Report, Screen};
use crate::modes::RunMode;
use crate::monitor::Main;
use crate::state::State;
use crate::updatable::age_of;
#[allow(unused_imports)]
use crate::updatable::Updatable;
use std::time::Instant;
use vstd::prelude::*;

verus! {

/// What a look at the age of the data asks for.
#[derive(Debug, Clone, Copy, PartialEq, Eq, Structural)]
pub struct Refresh {
    /// Whether all is over.
    pub stop: bool,
    /// Whether the thread that talks to the server is to be told.
    pub send: bool,
}

/// What a turn puts out.
#[derive(Debug)]
pub enum Output {
    Silent,
    Draw(Screen),
    Report(Report),
}

impl State {
    /// When the last request came to its outcome, if one is shown.
    pub fn response_stamp(&self) -> (stamp: Option<&Instant>)
        ensures
            match (stamp, self.response) {
                (Some(stamp), Some((then, _))) => *stamp == then,
                (None, None) => true,
                _ => false,
            },
    {
        match &self.response {
            Some((then, _)) => Some(then),
            None => None,
        }
    }
}

impl Main {
    /// For how many milliseconds the data that is shown lasts; pipelines are fetched
    /// ten times as often as jobs.
    pub open spec fn lasts(self) -> int {
        if self.mode is Pipelines {
            self.config.refresh * 100
        } else {
            self.config.refresh * 1000
        }
    }

    /// Whether the time that the data lasts, where it is looked at, is a number that the
    /// machine can hold.
    pub open spec fn lasts_fits(self) -> bool {
        (self.auto_refresh || self.first_load) && (self.mode is Pipelines || self.mode is Jobs
            || self.mode is PipeDiff) ==> self.lasts() <= u64::MAX
    }

    /// Tells whether the time that the data lasts, where it is looked at, is a number
    /// that the machine can hold.
    pub fn can_refresh(&self) -> (can: bool)
        ensures
            can == self.lasts_fits(),
    {
        if !self.auto_refresh && !self.first_load {
            return true;
        }
        match &self.mode {
            RunMode::Pipelines(_) => self.config.refresh <= u64::MAX / 100,
            RunMode::Jobs(_) | RunMode::PipeDiff(_) => self.config.refresh <= u64::MAX / 1000,
            _ => true,
        }
    }

    /// For how many nanoseconds the outcome of a request is shown.
    pub open spec fn response_lasts(self) -> int {
        if self.config.refresh >= 2 {
            (self.config.refresh / 2) * 1_000_000_000
        } else {
            1_000_000_000
        }
    }

    /// Whether the outcome of a request is shown no longer, when it is `age`
    /// nanoseconds old.
    pub open spec fn response_over(self, state: State, age: u128) -> bool {
        state.response is Some && age > self.response_lasts()
    }

    /// What is shared, after the ages of the data and of the last outcome were looked
    /// at.
    pub open spec fn aged(self, state: State, data_age: u128, response_age: u128) -> State {
        let lasts = self.lasts() as u64;
        let response = if self.response_over(state, response_age) {
            None
        } else {
            state.response
        };
        match self.mode {
            RunMode::Nothing => state,
            RunMode::Pipelines(_) => State {
                pipelines: state.pipelines.after_check(data_age, lasts),
                response,
                ..state
            },
            RunMode::Jobs(_) => State {
                jobs: state.jobs.after_check(data_age, lasts),
                response,
                ..state
            },
            RunMode::PipeDiff(_) => State {
                pipediff: state.pipediff.after_check(data_age, lasts),
                response,
                ..state
            },
            _ => State { response, ..state },
        }
    }

    /// Whether data is asked for, in `after`, that was not asked for in `before`, or the
    /// outcome of a request is no longer shown.
    pub open spec fn has_news(before: State, after: State) -> bool {
        ||| !before.pipelines.update && after.pipelines.update
        ||| !before.jobs.update && after.jobs.update
        ||| !before.pipediff.update && after.pipediff.update
        ||| before.response is Some && after.response is None
    }

    /// Whether `after`, `state_after` and `refresh` are what a look at the ages of the
    /// data leaves. It is left out while nothing is to be fetched by itself, unless
    /// something else is shown than before.
    pub open spec fn refreshed(
        self,
        state: State,
        data_age: u128,
        response_age: u128,
        after: Main,
        state_after: State,
        refresh: Refresh,
    ) -> bool {
        if self.auto_refresh || self.first_load {
            &&& after == Main { first_load: false, ..self }
            &&& state_after == self.aged(state, data_age, response_age)
            &&& refresh.stop == self.mode is Nothing
            &&& refresh.send == Main::has_news(state, state_after)
        } else {
            &&& after == self
            &&& state_after == state
            &&& refresh == Refresh { stop: false, send: false }
        }
    }

    /// When the data that is shown was fetched, if it was.
    pub open spec fn fetched_at(self, state: State) -> Option<Instant> {
        match self.mode {
            RunMode::Pipelines(_) => match state.pipelines.data {
                Some((then, _)) => Some(then),
                None => None,
            },
            RunMode::Jobs(_) => match state.jobs.data {
                Some((then, _)) => Some(then),
                None => None,
            },
            RunMode::PipeDiff(_) => match state.pipediff.data {
                Some((then, _)) => Some(then),
                None => None,
            },
            _ => None,
        }
    }

    /// When the data that is shown was fetched, if it was.
    pub fn data_stamp<'a>(&self, state: &'a State) -> (stamp: Option<&'a Instant>)
        ensures
            match (stamp, self.fetched_at(*state)) {
                (Some(stamp), Some(then)) => *stamp == then,
                (None, None) => true,
                _ => false,
            },
    {
        match &self.mode {
            RunMode::Pipelines(_) => state.pipelines.stamp(),
            RunMode::Jobs(_) => state.jobs.stamp(),
            RunMode::PipeDiff(_) => state.pipediff.stamp(),
            _ => None,
        }
    }

    /// Looks at the ages of the data and of the last outcome, by the machine's clock.
    pub fn refresh(&mut self, state: &mut State) -> (refresh: Refresh)
        requires
            old(self).lasts_fits(),
        ensures
            exists|data_age: u128, response_age: u128| #[trigger]
                old(self).refreshed(
                    *old(state),
                    data_age,
                    response_age,
                    *final(self),
                    *final(state),
                    refresh,
                ),
    {
        let data_age = age_of(self.data_stamp(state));
        let response_age = age_of(state.response_stamp());
        self.refresh_after(state, data_age, response_age)
    }

    /// Looks at the ages of the data and of the last outcome, in nanoseconds.
    pub fn refresh_after(&mut self, state: &mut State, data_age: u128, response_age: u128) -> (refresh:
        Refresh)
        requires
            old(self).lasts_fits(),
        ensures
            old(self).refreshed(
                *old(state),
                data_age,
                response_age,
                *final(self),
                *final(state),
                refresh,
            ),
    {
        if !self.auto_refresh && !self.first_load {
            return Refresh { stop: false, send: false };
        }
        self.first_load = false;
        let asked = match &self.mode {
            RunMode::Nothing => {
                return Refresh { stop: true, send: false };
            },
            RunMode::Pipelines(_) => state.pipelines.check_expiry_after(
                data_age,
                self.config.refresh * 100,
            ),
            RunMode::Jobs(_) => state.jobs.check_expiry_after(data_age, self.config.refresh * 1000),
            RunMode::PipeDiff(_) => state.pipediff.check_expiry_after(
                data_age,
                self.config.refresh * 1000,
            ),
            _ => false,
        };
        let half = self.config.refresh / 2;
        let seconds: u64 = if half > 1 {
            half
        } else {
            1
        };
        let over = state.response.is_some() && response_age > seconds as u128 * 1_000_000_000;
        if over {
            state.response = None;
        }
        Refresh { stop: false, send: asked || over }
    }

    /// Whether `after` and `output` are what putting out what is shown leaves: nothing
    /// while debugging, a report where nobody looks on, and else a drawing.
    pub open spec fn put_out(self, state: State, after: Main, output: Output) -> bool {
        if self.debug {
            after == self && output is Silent
        } else if self.non_interactive {
            &&& after == self
            &&& output matches Output::Report(report)
            &&& self.reported(state, report)
        } else {
            &&& output matches Output::Draw(screen)
            &&& self.drew(state, after, screen)
        }
    }

    /// Puts out what is shown.
    pub fn put(&mut self, state: &State) -> (output: Output)
        requires
            !old(self).debug && old(self).non_interactive ==> old(self).reportable(*state),
        ensures
            old(self).put_out(*state, *final(self), output),
    {
        if self.debug {
            Output::Silent
        } else if self.non_interactive {
            Output::Report(self.check_report_non_interactive(state))
        } else {
            Output::Draw(self.draw(state))
        }
    }
}

} // verus!
