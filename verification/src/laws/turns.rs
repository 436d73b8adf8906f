//! What holds of the monitor's turns.

use crate::monitor::Main;
use crate::refresh::{Output, Refresh};
use crate::state::State;
use vstd::prelude::*;

verus! {

/// Data that is shown is asked for again once it is so old: jobs and comparisons after as many
/// seconds as the configuration says, pipelines after a tenth of that. Missing data is asked
/// for at once, and data that is not shown is not.
pub proof fn old_data_is_asked_for(
    main: Main,
    state: State,
    data_age: u128,
    response_age: u128,
    after: Main,
    state_after: State,
    refresh: Refresh,
)
    requires
        main.lasts_fits(),
        main.auto_refresh || main.first_load,
        main.refreshed(state, data_age, response_age, after, state_after, refresh),
    ensures
        state_after.jobs.update <==> state.jobs.update || (main.mode is Jobs && (state.jobs.data
            is None || data_age >= main.config.refresh * 1_000_000_000)),
        state_after.pipediff.update <==> state.pipediff.update || (main.mode is PipeDiff && (
        state.pipediff.data is None || data_age >= main.config.refresh * 1_000_000_000)),
        state_after.pipelines.update <==> state.pipelines.update || (main.mode is Pipelines && (
        state.pipelines.data is None || data_age >= main.config.refresh * 100_000_000)),
        state_after.jobs.data == state.jobs.data,
        state_after.pipediff.data == state.pipediff.data,
        state_after.pipelines.data == state.pipelines.data,
        state_after.request_queue == state.request_queue,
        state_after.pipeline_trigger == state.pipeline_trigger,
        state_after.request_count == state.request_count,
{
}

/// The outcome of a request is shown for half as many seconds as the configuration says for
/// jobs, but for one at least.
pub proof fn outcomes_are_shown_for_a_while(
    main: Main,
    state: State,
    data_age: u128,
    response_age: u128,
    after: Main,
    state_after: State,
    refresh: Refresh,
)
    requires
        main.auto_refresh || main.first_load,
        !(main.mode is Nothing),
        main.refreshed(state, data_age, response_age, after, state_after, refresh),
    ensures
        state_after.response is Some ==> state_after.response == state.response,
        state.response is Some ==> (state_after.response is None <==> response_age
            > 1_000_000_000 && response_age > (main.config.refresh / 2) * 1_000_000_000),
{
}

/// The thread that talks to the server is told if and only if something is asked for that was
/// not before, or an outcome is no longer shown.
pub proof fn news_are_sent(
    main: Main,
    state: State,
    data_age: u128,
    response_age: u128,
    after: Main,
    state_after: State,
    refresh: Refresh,
)
    requires
        main.refreshed(state, data_age, response_age, after, state_after, refresh),
    ensures
        refresh.send <==> {
            ||| state_after.jobs.update != state.jobs.update
            ||| state_after.pipelines.update != state.pipelines.update
            ||| state_after.pipediff.update != state.pipediff.update
            ||| state_after.response != state.response
        },
{
}

/// Nothing is asked for by itself where that is switched off, unless something else is shown
/// than before; and that is looked at once.
pub proof fn switched_off_refresh_is_off(
    main: Main,
    state: State,
    data_age: u128,
    response_age: u128,
    after: Main,
    state_after: State,
    refresh: Refresh,
)
    requires
        main.refreshed(state, data_age, response_age, after, state_after, refresh),
    ensures
        !main.auto_refresh && !main.first_load ==> state_after == state && !refresh.send
            && !refresh.stop,
        !after.first_load,
        after.mode == main.mode,
        after.prev_mode == main.prev_mode,
        after.auto_refresh == main.auto_refresh,
        after.leave == main.leave,
        after.config == main.config,
        refresh.stop <==> main.mode is Nothing && (main.auto_refresh || main.first_load),
        refresh.stop ==> state_after == state,
{
}

/// A turn is silent while debugging, reports where nobody looks on, and draws else; only
/// drawing changes the monitor.
pub proof fn turns_put_out_what_is_asked_for(
    main: Main,
    state: State,
    after: Main,
    output: Output,
)
    requires
        main.put_out(state, after, output),
    ensures
        output is Silent <==> main.debug,
        output is Report <==> !main.debug && main.non_interactive,
        output is Draw <==> !main.debug && !main.non_interactive,
        !(output is Draw) ==> after == main,
        output matches Output::Report(report) ==> main.reported(state, report),
        output matches Output::Draw(screen) ==> main.drew(state, after, screen),
{
}

/// The data whose age is looked at is that of what is shown.
pub proof fn age_is_that_of_what_is_shown(main: Main, state: State)
    ensures
        main.mode is Jobs ==> (main.fetched_at(state) is Some <==> state.jobs.data is Some),
        main.mode is Pipelines ==> (main.fetched_at(state) is Some <==> state.pipelines.data
            is Some),
        main.mode is PipeDiff ==> (main.fetched_at(state) is Some <==> state.pipediff.data is Some),
        main.mode is Jobs ==> (state.jobs.data matches Some((then, _)) ==> main.fetched_at(state)
            == Some(then)),
        main.mode is Pipelines ==> (state.pipelines.data matches Some((then, _))
            ==> main.fetched_at(state) == Some(then)),
        main.mode is PipeDiff ==> (state.pipediff.data matches Some((then, _))
            ==> main.fetched_at(state) == Some(then)),
{
}

} // verus!
