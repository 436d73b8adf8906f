//! What holds of the monitor as a whole.

use crate::display::{innermost, question, Screen};
use crate::jobs::JobDetailMode;
use crate::keys::Action;
use crate::model::{Pipeline, Request};
use crate::modes::{JobsMode, PipeDiff, RunMode, RxCmd};
use crate::monitor::{Effect, Main};
use crate::refresh::Refresh;
use crate::screen::visible;
use crate::state::State;
use crate::worker::{
    fetch_for, requests_continued, unknown_triggers, Step, Thread, ThreadAction,
};
use vstd::prelude::*;

pub mod actions;
pub mod commands;
pub mod keyboard;
pub mod lists;
pub mod tables;
pub mod texts;
pub mod thread;
pub mod turns;
pub mod waits;

verus! {

/// Nothing is requested of the server without a confirmation: only the key for it, while
/// the question is open, adds to the requests, and what it adds is what was asked about.
pub proof fn only_confirmation_queues(
    main: Main,
    state: State,
    action: Action,
    rows: u16,
    after: Main,
    state_after: State,
    effects: Seq<Effect>,
)
    requires
        main.acted(state, action, rows, after, state_after, effects),
    ensures
        state_after.request_queue != state.request_queue ==> {
            &&& action is ConfirmAction
            &&& main.mode matches RunMode::Modal(request, _)
            &&& state_after.request_queue@ == seq![request] + state.request_queue@
        },
{
}

/// A question that is confirmed leaves the monitor as it was before the question; the
/// request is queued, and the thread that talks to the server is told.
pub proof fn confirming_restores(
    main: Main,
    request: Request,
    state: State,
    rows: u16,
    after: Main,
    state_after: State,
    effects: Seq<Effect>,
)
    requires
        main.asking(request).acted(
            state,
            Action::ConfirmAction,
            rows,
            after,
            state_after,
            effects,
        ),
    ensures
        after == main,
        state_after.request_queue@ == seq![request] + state.request_queue@,
        effects == seq![Effect::Send(RxCmd::Refresh)],
{
}

/// A question that is cancelled leaves all as it was before the question.
pub proof fn cancelling_restores(
    main: Main,
    request: Request,
    state: State,
    action: Action,
    rows: u16,
    after: Main,
    state_after: State,
    effects: Seq<Effect>,
)
    requires
        action is GoBack || action is QuitOrGoBack,
        main.asking(request).acted(state, action, rows, after, state_after, effects),
    ensures
        after == main,
        state_after == state,
        effects == Seq::<Effect>::empty(),
{
}

/// The deletion of the pipeline whose jobs are shown is queued when it is confirmed, and
/// what was shown before the jobs is shown again, if something was.
pub proof fn deletion_from_jobs_is_queued(
    main: Main,
    info: JobsMode,
    state: State,
    rows: u16,
    asked: Main,
    state_asked: State,
    effects_asked: Seq<Effect>,
    after: Main,
    state_after: State,
    effects: Seq<Effect>,
)
    requires
        main.mode == RunMode::Jobs(info),
        main.acted(state, Action::DeletePipeline, rows, asked, state_asked, effects_asked),
        asked.acted(state_asked, Action::ConfirmAction, rows, after, state_after, effects),
    ensures
        state_after.request_queue@ == seq![Request::DeletePipeline(info.pipeline_id)]
            + state.request_queue@,
        effects == seq![Effect::Send(RxCmd::Refresh)],
        after.mode == match main.prev_mode {
            Some(mode) => mode,
            None => main.mode,
        },
{
}

/// A confirmed request is the next one that the server is asked for, once the thread
/// that talks to it has no others.
pub proof fn confirmed_request_is_next(
    main: Main,
    state: State,
    after: Main,
    state_after: State,
    effects: Seq<Effect>,
    thread: Thread,
    thread_after: Thread,
    step: Step,
)
    requires
        main.mode is Modal,
        main.confirmed(state, after, state_after, effects),
        thread.pending@ == Seq::<Request>::empty(),
        requests_continued(
            thread,
            thread.pending@ + state_after.request_queue@,
            thread_after,
            step,
        ),
    ensures
        main.mode matches RunMode::Modal(request, _) && step.action == ThreadAction::Perform(
            request,
        ),
        thread_after.pending@ == state.request_queue@,
{
    let waiting = thread.pending@ + state_after.request_queue@;
    assert(waiting[0] == state_after.request_queue@[0]);
    assert(waiting.drop_first() =~= state.request_queue@);
}

/// When the thread that talks to the server turns to anything but a request, no request
/// is left.
pub proof fn requests_come_first(
    before: Thread,
    waiting: Seq<Request>,
    after: Thread,
    step: Step,
)
    requires
        requests_continued(before, waiting, after, step),
    ensures
        !(step.action is Perform) ==> after.pending@ == Seq::<Request>::empty(),
        step.action is Perform <==> waiting.len() > 0,
        step.action matches ThreadAction::Perform(request) ==> waiting == seq![request]
            + after.pending@,
{
    if waiting.len() > 0 {
        assert(waiting =~= seq![waiting[0]] + waiting.drop_first());
    } else {
        assert(waiting =~= Seq::<Request>::empty());
    }
}

/// All is over by the key for it, by going back where there is nothing to go back to, and
/// by nothing else.
pub proof fn leaving_is_asked_for(
    main: Main,
    state: State,
    action: Action,
    rows: u16,
    after: Main,
    state_after: State,
    effects: Seq<Effect>,
)
    requires
        main.acted(state, action, rows, after, state_after, effects),
    ensures
        after.leave <==> main.leave || action is Quit || (action is QuitOrGoBack && !(
        main.mode is Modal) && main.prev_mode is None),
{
}

/// Whether two pipelines to compare are two: either none is picked, or both are, and they
/// differ.
pub open spec fn ends_differ(main: Main) -> bool {
    match main.pipelines_select_for_diff {
        Some((Some(from), Some(to))) => from != to,
        Some(_) => false,
        None => true,
    }
}

/// A pipeline is never compared with itself, as long as the two newest ones differ.
pub proof fn ends_stay_different(
    main: Main,
    state: State,
    action: Action,
    rows: u16,
    after: Main,
    state_after: State,
    effects: Seq<Effect>,
)
    requires
        main.acted(state, action, rows, after, state_after, effects),
        main.pipelines@.len() >= 2 ==> main.pipelines@[0].id != main.pipelines@[1].id,
        ends_differ(main),
    ensures
        ends_differ(after),
        main.mode is Pipelines && action is Enter && after.mode is PipeDiff ==> after.mode->PipeDiff_0.from
            != after.mode->PipeDiff_0.to,
{
    if action is DeletePipeline {
        assert(after.pipelines_select_for_diff == main.pipelines_select_for_diff);
    } else if action is Enter {
        assert(after.pipelines_select_for_diff == main.pipelines_select_for_diff);
    } else if !(action is Diff || action is SetFromDiff || action is SetToDiff) {
        assert(after.pipelines_select_for_diff == main.pipelines_select_for_diff);
    }
}

/// Each of these keys undoes itself.
pub proof fn toggles_undo_themselves(
    main: Main,
    state: State,
    action: Action,
    rows: u16,
    once: Main,
    state_once: State,
    effects_once: Seq<Effect>,
    twice: Main,
    state_twice: State,
    effects_twice: Seq<Effect>,
)
    requires
        action is RefreshToggle || action is HideUnchanged || action is ToggleUsernameResolve
            || action is ToggleManualJobs,
        main.acted(state, action, rows, once, state_once, effects_once),
        once.acted(state_once, action, rows, twice, state_twice, effects_twice),
    ensures
        twice == main,
{
    match main.mode {
        RunMode::Pipelines(info) => {
            assert(!!info.resolve_usernames == info.resolve_usernames);
        },
        RunMode::Jobs(info) => {
            assert(!!info.manual_jobs == info.manual_jobs);
        },
        _ => {},
    }
}

/// The key for all branches, pressed twice, leads back to the branch that was shown.
pub proof fn branches_are_restored(
    main: Main,
    state: State,
    rows: u16,
    once: Main,
    state_once: State,
    effects_once: Seq<Effect>,
    twice: Main,
    state_twice: State,
    effects_twice: Seq<Effect>,
)
    requires
        main.acted(state, Action::ToggleAllRefs, rows, once, state_once, effects_once),
        once.acted(
            state_once,
            Action::ToggleAllRefs,
            rows,
            twice,
            state_twice,
            effects_twice,
        ),
    ensures
        twice.mode == main.mode,
        main.mode matches RunMode::Pipelines(info) && info.ref_name is Some
            ==> (once.mode matches RunMode::Pipelines(all) && all.ref_name is None),
{
}

/// Going back from the jobs of a pipeline, from a comparison or from the help leads to
/// what was shown before, and the thread that talks to the server is told.
pub proof fn back_returns(
    main: Main,
    state: State,
    action: Action,
    rows: u16,
    entered: Main,
    state_entered: State,
    effects_entered: Seq<Effect>,
    after: Main,
    state_after: State,
    effects: Seq<Effect>,
)
    requires
        action is Help || (action is Enter && main.mode is Pipelines && entered.mode
            != main.mode),
        main.acted(state, action, rows, entered, state_entered, effects_entered),
        entered.acted(state_entered, Action::GoBack, rows, after, state_after, effects),
    ensures
        after.mode == main.mode,
        after.prev_mode is None,
        effects == seq![Effect::Send(RxCmd::UpdateMode(main.mode))],
{
}

/// The jobs of a pipeline that is entered are fetched: at the next look at the ages of the
/// data they are asked for, and the thread that talks to the server, which was told of
/// the new mode, fetches those of that pipeline.
pub proof fn entered_jobs_are_fetched(
    main: Main,
    state: State,
    entered: Main,
    state_entered: State,
    effects: Seq<Effect>,
    data_age: u128,
    response_age: u128,
    after: Main,
    state_after: State,
    refresh: Refresh,
    thread: Thread,
)
    requires
        main.mode is Pipelines,
        !(main.pipelines_select_for_diff matches Some((Some(_), Some(_)))),
        main.chosen_pipeline() is Some,
        main.entered(state, entered, state_entered, effects),
        entered.refreshed(
            state_entered,
            data_age,
            response_age,
            after,
            state_after,
            refresh,
        ),
        effects == seq![Effect::Send(RxCmd::UpdateMode(thread.mode))],
    ensures
        fetch_for(thread, state_after) == Some(
            ThreadAction::FetchJobs(
                main.chosen_pipeline()->0.id,
                JobDetailMode::WithoutManual,
            ),
        ),
        !state.jobs.update ==> refresh.send,
{
    let mode = RunMode::Jobs(
        JobsMode { pipeline_id: main.chosen_pipeline()->0.id, manual_jobs: false },
    );
    assert(effects[0] == Effect::Send(RxCmd::UpdateMode(mode)));
    assert(effects[0] == Effect::Send(RxCmd::UpdateMode(thread.mode)));
}

/// Two pipelines that are to be compared are compared: at the next look at the ages of the
/// data their difference is asked for, and the thread that talks to the server, which
/// was told of the new mode, fetches it.
pub proof fn picked_pipelines_are_compared(
    main: Main,
    state: State,
    from: u64,
    to: u64,
    entered: Main,
    state_entered: State,
    effects: Seq<Effect>,
    data_age: u128,
    response_age: u128,
    after: Main,
    state_after: State,
    refresh: Refresh,
    thread: Thread,
)
    requires
        main.mode is Pipelines,
        main.pipelines_select_for_diff == Some((Some(from), Some(to))),
        main.entered(state, entered, state_entered, effects),
        entered.refreshed(
            state_entered,
            data_age,
            response_age,
            after,
            state_after,
            refresh,
        ),
        effects == seq![Effect::Send(RxCmd::UpdateMode(thread.mode))],
    ensures
        fetch_for(thread, state_after) == Some(ThreadAction::FetchDiff(PipeDiff { from, to })),
        !state.pipediff.update ==> refresh.send,
{
    let mode = RunMode::PipeDiff(PipeDiff { from, to });
    assert(effects[0] == Effect::Send(RxCmd::UpdateMode(mode)));
    assert(effects[0] == Effect::Send(RxCmd::UpdateMode(thread.mode)));
}

/// A pipeline is shown if and only if it is there and not hidden.
pub proof fn shown_unless_hidden(all: Seq<Pipeline>, ignored: Set<u64>, pipeline: Pipeline)
    ensures
        visible(all, ignored).contains(pipeline) <==> all.contains(pipeline) && !ignored.contains(
            pipeline.id,
        ),
    decreases all.len(),
{
    let keep = |p: Pipeline| !ignored.contains(p.id);
    reveal(Seq::filter);
    if all.len() > 0 {
        let rest = all.drop_last();
        shown_unless_hidden(rest, ignored, pipeline);
        assert(all =~= rest.push(all.last()));
        if keep(all.last()) {
            assert(visible(all, ignored) =~= visible(rest, ignored).push(all.last()));
            pushed_contains(visible(rest, ignored), all.last(), pipeline);
        } else {
            assert(visible(all, ignored) =~= visible(rest, ignored));
        }
        pushed_contains(rest, all.last(), pipeline);
    }
}

proof fn pushed_contains(items: Seq<Pipeline>, last: Pipeline, pipeline: Pipeline)
    ensures
        items.push(last).contains(pipeline) <==> items.contains(pipeline) || last == pipeline,
{
    let longer = items.push(last);
    if items.contains(pipeline) {
        let i = choose|i: int| 0 <= i < items.len() && items[i] == pipeline;
        assert(longer[i] == pipeline);
    }
    if last == pipeline {
        assert(longer[items.len() as int] == pipeline);
    }
    if longer.contains(pipeline) {
        let i = choose|i: int| 0 <= i < longer.len() && longer[i] == pipeline;
        if i < items.len() {
            assert(items[i] == pipeline);
        }
    }
}

/// A pipeline that is hidden is not shown; all others that were shown still are.
pub proof fn hidden_is_not_shown(
    main: Main,
    state: State,
    rows: u16,
    after: Main,
    state_after: State,
    effects: Seq<Effect>,
    all: Seq<Pipeline>,
    pipeline: Pipeline,
)
    requires
        main.mode is Pipelines,
        main.chosen_pipeline() is Some,
        main.acted(state, Action::Delete, rows, after, state_after, effects),
    ensures
        visible(all, after.ignored_pipeline_ids@).contains(pipeline) <==> visible(
            all,
            main.ignored_pipeline_ids@,
        ).contains(pipeline) && pipeline.id != main.chosen_pipeline()->0.id,
{
    shown_unless_hidden(all, after.ignored_pipeline_ids@, pipeline);
    shown_unless_hidden(all, main.ignored_pipeline_ids@, pipeline);
}

/// The key that clears the hidden items lets all pipelines be shown.
pub proof fn clearing_shows_all(
    main: Main,
    state: State,
    rows: u16,
    after: Main,
    state_after: State,
    effects: Seq<Effect>,
    all: Seq<Pipeline>,
)
    requires
        main.acted(state, Action::Clear, rows, after, state_after, effects),
    ensures
        visible(all, after.ignored_pipeline_ids@) == all,
    decreases all.len(),
{
    reveal(Seq::filter);
    if all.len() > 0 {
        clearing_shows_all(
            main,
            state,
            rows,
            after,
            state_after,
            effects,
            all.drop_last(),
        );
        assert(all =~= all.drop_last().push(all.last()));
    }
    assert(visible(all, after.ignored_pipeline_ids@) =~= all);
}

/// When jobs are drawn, one of them is selected, if there is any.
pub proof fn drawn_job_is_selected(main: Main, state: State, after: Main, screen: Screen)
    requires
        innermost(main.mode) is Jobs,
        main.drew(state, after, screen),
    ensures
        state.jobs.items().len() > 0 ==> after.chosen_job() is Some,
        after.mode == main.mode,
{
    if state.jobs.items().len() > 0 {
        state.jobs.selection_in_range(main.selected_job, None);
    }
}

/// When pipelines are drawn twice and nothing changes in between, one of those that are
/// shown is selected, if there is any.
pub proof fn redrawn_pipeline_is_selected(
    main: Main,
    state: State,
    once: Main,
    screen: Screen,
    twice: Main,
    screen_twice: Screen,
)
    requires
        innermost(main.mode) is Pipelines,
        main.drew(state, once, screen),
        once.drew(state, twice, screen_twice),
    ensures
        twice.pipelines@ == once.pipelines@,
        twice.pipelines@.len() > 0 ==> twice.chosen_pipeline() is Some,
{
    let all = state.pipelines.items();
    let keep = |p: Pipeline| !main.ignored_pipeline_ids@.contains(p.id);
    all.lemma_filter_len(keep);
    assert(visible(all, main.ignored_pipeline_ids@) == all.filter(keep));
    if once.pipelines@.len() > 0 {
        state.pipelines.selection_in_range(once.selected_pipeline, Some(once.pipelines.len()));
    }
}

/// A question over what is shown does not change what is shown.
pub proof fn question_covers(main: Main, request: Request)
    ensures
        innermost(main.asking(request).mode) == innermost(main.mode),
        !(main.mode is Modal) ==> question(main.asking(request).mode) == Some(request),
{
    reveal_with_fuel(question, 2);
}

/// Who started a pipeline is looked up if and only if it is not known.
pub proof fn unknown_are_looked_up(pipelines: Seq<Pipeline>, known: Set<u64>, id: u64)
    ensures
        unknown_triggers(pipelines, known).contains(id) <==> !known.contains(id) && exists|i: int|
            0 <= i < pipelines.len() && (#[trigger] pipelines[i]).id == id,
    decreases pipelines.len(),
{
    let found = exists|i: int| 0 <= i < pipelines.len() && (#[trigger] pipelines[i]).id == id;
    if pipelines.len() > 0 {
        let rest = pipelines.drop_last();
        let last = pipelines.last();
        unknown_are_looked_up(rest, known, id);
        let found_before = exists|i: int| 0 <= i < rest.len() && (#[trigger] rest[i]).id == id;
        if found_before {
            let i = choose|i: int| 0 <= i < rest.len() && (#[trigger] rest[i]).id == id;
            assert(pipelines[i].id == id);
        }
        if found {
            let i = choose|i: int|
                0 <= i < pipelines.len() && (#[trigger] pipelines[i]).id == id;
            if i < rest.len() {
                assert(rest[i].id == id);
            }
        }
        assert(found <==> found_before || last.id == id) by {
            assert(pipelines[pipelines.len() - 1] == last);
        }
        let before = unknown_triggers(rest, known);
        let ids = seq![last.id] + before;
        assert(ids.contains(id) <==> before.contains(id) || last.id == id) by {
            assert(ids[0] == last.id);
            assert(forall|i: int| 0 <= i < before.len() ==> ids[i + 1] == #[trigger] before[i]);
            if ids.contains(id) && last.id != id {
                let i = choose|i: int| 0 <= i < ids.len() && ids[i] == id;
                assert(before[i - 1] == id);
            }
        }
    }
}

} // verus!
