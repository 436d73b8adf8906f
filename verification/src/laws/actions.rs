//! What holds of the actions, one by one.

use crate::diff::JobDiff;
use crate::keys::Action;
use crate::laws::lists::{pages_lead_on, shown_items_are_selectable};
use crate::model::{Job, Request};
use crate::modes::{JobsMode, PipeDiff, PipelinesMode, RunMode, RxCmd};
use crate::monitor::{page, repeated, Effect, Main};
use crate::state::State;
#[allow(unused_imports)]
use crate::updatable::Updatable;
use vstd::prelude::*;

verus! {

/// No action changes what was configured, what is noted as shown, or what the server
/// reported, but for dropping data that is to be fetched anew.
pub proof fn actions_leave_the_rest(
    main: Main,
    state: State,
    action: Action,
    rows: u16,
    after: Main,
    state_after: State,
    effects: Seq<Effect>,
)
    requires
        main.acted(state, action, rows, after, state_after, effects),
    ensures
        after.config == main.config,
        after.debug == main.debug,
        after.non_interactive == main.non_interactive,
        after.json_output == main.json_output,
        after.current_user == main.current_user,
        after.pipelines == main.pipelines,
        after.jobs == main.jobs,
        after.pipediffs == main.pipediffs,
        state_after.request_count == state.request_count,
        state_after.response == state.response,
        state_after.pipeline_trigger == state.pipeline_trigger,
        state_after.pipelines.update == state.pipelines.update,
        state_after.pipediff.update == state.pipediff.update,
        state_after.pipelines.data == state.pipelines.data || state_after.pipelines.data is None,
        state_after.jobs.data == state.jobs.data || state_after.jobs.data is None,
        state_after.pipediff.data == state.pipediff.data || state_after.pipediff.data is None,
{
    if action is DeletePipeline {
        assert(after.config == main.config);
    } else if action is Enter || action is ToggleAllRefs || action is ToggleManualJobs {
        assert(after.config == main.config);
    } else if action is ConfirmAction {
        assert(after.config == main.config);
    }
}

/// Each switch is thrown by its own key alone, and each choice made by its own keys.
pub proof fn switches_have_their_keys(
    main: Main,
    state: State,
    action: Action,
    rows: u16,
    after: Main,
    state_after: State,
    effects: Seq<Effect>,
)
    requires
        main.acted(state, action, rows, after, state_after, effects),
    ensures
        after.auto_refresh == if action is RefreshToggle {
            !main.auto_refresh
        } else {
            main.auto_refresh
        },
        after.pipediff_hide_unchanged == if action is HideUnchanged {
            !main.pipediff_hide_unchanged
        } else {
            main.pipediff_hide_unchanged
        },
        !(action is Diff || action is SetFromDiff || action is SetToDiff)
            ==> after.pipelines_select_for_diff == main.pipelines_select_for_diff,
        !(action is Delete || action is Clear) ==> after.ignored_pipeline_ids
            == main.ignored_pipeline_ids,
        !(action is ToggleAllRefs) ==> after.ref_save == main.ref_save,
{
    if action is DeletePipeline {
        assert(after.auto_refresh == main.auto_refresh);
    } else if action is Enter || action is ToggleAllRefs || action is ToggleManualJobs {
        assert(after.auto_refresh == main.auto_refresh);
    }
}

/// A selection is moved in its own list alone: by the keys for steps, by hiding the last
/// pipeline, and by entering a pipeline, which begins a new list.
pub proof fn selections_move_in_their_list(
    main: Main,
    state: State,
    action: Action,
    rows: u16,
    after: Main,
    state_after: State,
    effects: Seq<Effect>,
)
    requires
        main.acted(state, action, rows, after, state_after, effects),
    ensures
        after.selected_pipeline != main.selected_pipeline ==> main.mode is Pipelines && (
        action is Up || action is Down || action is PageUp || action is PageDown || action is Home
            || action is End || action is Delete),
        after.selected_job != main.selected_job ==> (main.mode is Jobs && (action is Up
            || action is Down || action is PageUp || action is PageDown || action is Home
            || action is End)) || (main.mode is Pipelines && action is Enter),
        after.selected_pipediff != main.selected_pipediff ==> (main.mode is PipeDiff && (
        action is Up || action is Down || action is PageUp || action is PageDown || action is Home
            || action is End)) || (main.mode is Pipelines && action is Enter),
{
    if action is DeletePipeline {
        assert(after.selected_pipeline == main.selected_pipeline);
    } else if action is ToggleAllRefs || action is ToggleManualJobs {
        assert(after.selected_pipeline == main.selected_pipeline);
    }
}

/// While a question is open, nothing can be done in the list under it.
pub proof fn questions_block_the_list(
    main: Main,
    state: State,
    action: Action,
    rows: u16,
    after: Main,
    state_after: State,
    effects: Seq<Effect>,
)
    requires
        main.acted(state, action, rows, after, state_after, effects),
        main.mode is Modal,
        !(action is Help || action is Quit || action is QuitOrGoBack || action is GoBack || action
            is Clear || action is Diff || action is RefreshToggle || action is HideUnchanged
            || action is SetFromDiff || action is SetToDiff || action is ConfirmAction),
    ensures
        after == main,
        state_after == state,
        effects == Seq::<Effect>::empty(),
{
    assert(effects =~= Seq::<Effect>::empty());
}

/// What is for a list does nothing while the help is shown, or nothing at all; in the help,
/// steps are steps in the help.
pub proof fn other_screens_have_no_list(
    main: Main,
    state: State,
    action: Action,
    rows: u16,
    after: Main,
    state_after: State,
    effects: Seq<Effect>,
)
    requires
        main.acted(state, action, rows, after, state_after, effects),
        main.mode is Help || main.mode is Nothing,
        !(action is Help || action is Quit || action is QuitOrGoBack || action is GoBack || action
            is Clear || action is Diff || action is RefreshToggle || action is HideUnchanged
            || action is SetFromDiff || action is SetToDiff),
    ensures
        after == main,
        state_after == state,
        main.mode is Help && action is Up ==> effects == seq![Effect::HelpUp],
        main.mode is Help && action is Down ==> effects == seq![Effect::HelpDown],
        main.mode is Help && action is PageUp ==> effects.len() == page(rows) && forall|i: int|
            0 <= i < effects.len() ==> #[trigger] effects[i] == Effect::HelpUp,
        main.mode is Help && action is PageDown ==> effects.len() == page(rows) && forall|i: int|
            0 <= i < effects.len() ==> #[trigger] effects[i] == Effect::HelpDown,
        main.mode is Nothing || !(action is Up || action is Down || action is PageUp || action
            is PageDown) ==> effects == Seq::<Effect>::empty(),
{
    assert(repeated(Effect::HelpUp, 1) =~= seq![Effect::HelpUp]);
    assert(repeated(Effect::HelpDown, 1) =~= seq![Effect::HelpDown]);
}

/// A page is the screen without two of its rows.
pub proof fn pages_fill_the_screen(rows: u16)
    ensures
        rows >= 2 ==> page(rows) + 2 == rows,
        rows < 2 ==> page(rows) == 0,
{
}

/// Every key can be obeyed, but for those that lead down a list from the last place that a
/// number of the machine can hold: a step or a page down can be made from every item, and
/// where no list is shown.
pub proof fn keys_can_be_obeyed(main: Main, state: State, action: Action, rows: u16, i: usize)
    ensures
        !(action is Down || action is PageDown) ==> main.accepts(state, action, rows),
        !(main.mode is Jobs || main.mode is Pipelines || main.mode is PipeDiff) ==> main.accepts(
            state,
            action,
            rows,
        ),
        main.mode is Jobs && main.selected_job.selected == Some(i) ==> {
            &&& i < state.jobs.selectable(Some(main.jobs.len())) ==> main.accepts(
                state,
                action,
                rows,
            )
            &&& action is Down ==> (main.accepts(state, action, rows) <==> i < usize::MAX)
        },
        main.mode is Pipelines && main.selected_pipeline.selected == Some(i) ==> {
            &&& i < state.pipelines.selectable(Some(main.pipelines.len())) ==> main.accepts(
                state,
                action,
                rows,
            )
            &&& action is Down ==> (main.accepts(state, action, rows) <==> i < usize::MAX)
        },
        main.mode is PipeDiff && main.selected_pipediff.selected == Some(i) ==> {
            &&& i < state.pipediff.selectable(Some(main.pipediffs.len())) ==> main.accepts(
                state,
                action,
                rows,
            )
            &&& action is Down ==> (main.accepts(state, action, rows) <==> i < usize::MAX)
        },
{
    let n = page(rows) as nat;
    reveal_with_fuel(Updatable::downs_fit, 2);
    reveal_with_fuel(Updatable::downs, 2);
    if main.mode is Jobs && main.selected_job.selected == Some(i) && i < state.jobs.selectable(
        Some(main.jobs.len()),
    ) {
        pages_lead_on(state.jobs, main.selected_job, Some(main.jobs.len()), i, n);
        pages_lead_on(state.jobs, main.selected_job, Some(main.jobs.len()), i, 1);
    }
    if main.mode is Pipelines && main.selected_pipeline.selected == Some(i) && i
        < state.pipelines.selectable(Some(main.pipelines.len())) {
        pages_lead_on(state.pipelines, main.selected_pipeline, Some(main.pipelines.len()), i, n);
        pages_lead_on(state.pipelines, main.selected_pipeline, Some(main.pipelines.len()), i, 1);
    }
    if main.mode is PipeDiff && main.selected_pipediff.selected == Some(i) && i
        < state.pipediff.selectable(Some(main.pipediffs.len())) {
        pages_lead_on(state.pipediff, main.selected_pipediff, Some(main.pipediffs.len()), i, n);
        pages_lead_on(state.pipediff, main.selected_pipediff, Some(main.pipediffs.len()), i, 1);
    }
}

/// In a list of jobs each key does its work on the selected job: it is opened, retried or
/// played, its pipeline is cancelled, and the pipeline that is shown is deleted. A request
/// is asked about first, and what was shown stays under the question.
pub proof fn selected_job_is_worked_on(
    main: Main,
    state: State,
    action: Action,
    rows: u16,
    after: Main,
    state_after: State,
    effects: Seq<Effect>,
    info: JobsMode,
    i: usize,
)
    requires
        main.acted(state, action, rows, after, state_after, effects),
        main.mode == RunMode::Jobs(info),
        main.selected_job.selected == Some(i),
        i < main.jobs@.len(),
    ensures
        action is Enter ==> after == main && effects == seq![
            Effect::EnterJob(main.jobs@[i as int], info.pipeline_id),
        ],
        action is OpenInBrowser ==> after == main && effects == seq![
            Effect::OpenJobPage(main.jobs@[i as int].id),
        ],
        action is Retry ==> after.mode == RunMode::Modal(
            Request::RetryJob(main.jobs@[i as int].id),
            Box::new(main.mode),
        ) && effects == seq![Effect::RetryHook(main.jobs@[i as int], info.pipeline_id)],
        action is PlayJob ==> after.mode == RunMode::Modal(
            Request::PlayJob(main.jobs@[i as int].id),
            Box::new(main.mode),
        ) && effects == Seq::<Effect>::empty(),
        action is CancelPipeline ==> after.mode == RunMode::Modal(
            Request::CancelPipeline(main.jobs@[i as int].pipeline.id),
            Box::new(main.mode),
        ) && effects == Seq::<Effect>::empty(),
        action is DeletePipeline ==> (after.mode matches RunMode::Modal(request, _) && request
            == Request::DeletePipeline(info.pipeline_id)),
        action is Enter || action is OpenInBrowser || action is Retry || action is PlayJob
            || action is CancelPipeline || action is DeletePipeline ==> state_after == state,
{
}

/// The pipeline whose jobs are shown is deleted only after a question, which is asked over
/// what was shown before the jobs, and that is fetched again; where nothing was, it is asked
/// over the jobs, and nothing is sent.
pub proof fn deletion_leads_back_first(
    main: Main,
    state: State,
    rows: u16,
    after: Main,
    state_after: State,
    effects: Seq<Effect>,
    info: JobsMode,
)
    requires
        main.acted(state, Action::DeletePipeline, rows, after, state_after, effects),
        main.mode == RunMode::Jobs(info),
    ensures
        main.prev_mode matches Some(mode) ==> {
            &&& after.mode == RunMode::Modal(
                Request::DeletePipeline(info.pipeline_id),
                Box::new(mode),
            )
            &&& after.prev_mode is None
            &&& after.first_load
            &&& effects == seq![Effect::Send(RxCmd::UpdateMode(mode))]
        },
        main.prev_mode is None ==> {
            &&& after.mode == RunMode::Modal(
                Request::DeletePipeline(info.pipeline_id),
                Box::new(main.mode),
            )
            &&& after.prev_mode is None
            &&& after.first_load == main.first_load
            &&& effects == Seq::<Effect>::empty()
        },
        state_after == state,
{
}

/// In a list of pipelines each key does its work on the selected pipeline: it is opened in
/// the browser, its commit is shown, it is hidden, or it is deleted, cancelled or retried. A
/// request is asked about first, and what was shown stays under the question.
pub proof fn selected_pipeline_is_worked_on(
    main: Main,
    state: State,
    action: Action,
    rows: u16,
    after: Main,
    state_after: State,
    effects: Seq<Effect>,
    info: PipelinesMode,
    i: usize,
)
    requires
        main.acted(state, action, rows, after, state_after, effects),
        main.mode == RunMode::Pipelines(info),
        main.selected_pipeline.selected == Some(i),
        i < main.pipelines@.len(),
    ensures
        action is OpenInBrowser ==> after == main && effects == seq![
            Effect::OpenPipelinePage(main.pipelines@[i as int].id),
        ],
        action is GitLog && main.config.local_repo is Some ==> after == main && effects == seq![
            Effect::GitLog(main.pipelines@[i as int].sha),
        ],
        action is GitLog && main.config.local_repo is None ==> after == main && effects == Seq::<
            Effect,
        >::empty(),
        action is DeletePipeline ==> after.mode == RunMode::Modal(
            Request::DeletePipeline(main.pipelines@[i as int].id),
            Box::new(main.mode),
        ) && effects == Seq::<Effect>::empty(),
        action is CancelPipeline ==> after.mode == RunMode::Modal(
            Request::CancelPipeline(main.pipelines@[i as int].id),
            Box::new(main.mode),
        ) && effects == Seq::<Effect>::empty(),
        action is Retry ==> after.mode == RunMode::Modal(
            Request::RetryPipeline(main.pipelines@[i as int].id),
            Box::new(main.mode),
        ) && effects == Seq::<Effect>::empty(),
        action is PlayJob ==> after == main && effects == Seq::<Effect>::empty(),
        action is Delete ==> after.ignored_pipeline_ids@ == main.ignored_pipeline_ids@.insert(
            main.pipelines@[i as int].id,
        ) && after.mode == main.mode && effects == Seq::<Effect>::empty(),
        action is Delete && i > 0 && i + 1 == main.pipelines@.len()
            ==> after.selected_pipeline.selected == Some((i - 1) as usize),
        action is Delete && (i == 0 || i + 1 < main.pipelines@.len()) ==> after.selected_pipeline
            == main.selected_pipeline,
        action is OpenInBrowser || action is GitLog || action is DeletePipeline || action
            is CancelPipeline || action is Retry || action is PlayJob || action is Delete
            ==> state_after == state,
{
}

/// A pipeline is entered: its jobs are shown, without the manual ones, what was known of
/// other jobs is dropped, and the list can be gone back to. Where two pipelines are picked,
/// they are compared instead, the older one with the newer one.
pub proof fn pipelines_are_entered(
    main: Main,
    state: State,
    action: Action,
    rows: u16,
    after: Main,
    state_after: State,
    effects: Seq<Effect>,
    info: PipelinesMode,
    i: usize,
)
    requires
        main.acted(state, action, rows, after, state_after, effects),
        action is Enter,
        main.mode == RunMode::Pipelines(info),
        main.selected_pipeline.selected == Some(i),
        i < main.pipelines@.len(),
    ensures
        !(main.pipelines_select_for_diff matches Some((Some(_), Some(_)))) ==> {
            &&& after.mode == RunMode::Jobs(
                JobsMode { pipeline_id: main.pipelines@[i as int].id, manual_jobs: false },
            )
            &&& after.selected_job.selected is None
            &&& state_after.jobs.data is None
            &&& state_after.pipediff == state.pipediff
        },
        main.pipelines_select_for_diff matches Some((Some(from), Some(to))) ==> {
            &&& after.mode == RunMode::PipeDiff(PipeDiff { from, to })
            &&& after.selected_pipediff.selected is None
            &&& state_after.pipediff.data is None
            &&& state_after.jobs == state.jobs
        },
        after.prev_mode == Some(main.mode),
        after.first_load,
        effects == seq![Effect::Send(RxCmd::UpdateMode(after.mode))],
        state_after.pipelines == state.pipelines,
        state_after.request_queue == state.request_queue,
{
}

/// In a comparison, a job of both pipelines is opened as it is in the newer one, and by the
/// key for the previous job as it was in the older one, in the browser.
pub proof fn selected_difference_is_opened(
    main: Main,
    state: State,
    action: Action,
    rows: u16,
    after: Main,
    state_after: State,
    effects: Seq<Effect>,
    info: PipeDiff,
    i: usize,
    a: (String, Job),
    b: (String, Job),
)
    requires
        main.acted(state, action, rows, after, state_after, effects),
        main.mode == RunMode::PipeDiff(info),
        main.selected_pipediff.selected == Some(i),
        i < main.pipediffs@.len(),
        main.pipediffs@[i as int] == JobDiff::Both(a, b),
    ensures
        action is Enter ==> effects == seq![Effect::EnterJob(b.1, info.to)],
        action is OpenInBrowser ==> effects == seq![Effect::OpenJobPage(b.1.id)],
        action is OpenPreviousInBrowser ==> effects == seq![Effect::OpenJobPage(a.1.id)],
        action is Enter || action is OpenInBrowser || action is OpenPreviousInBrowser ==> after
            == main && state_after == state,
{
}

/// Nothing is worked on where nothing is selected.
pub proof fn nothing_selected_is_left_alone(
    main: Main,
    state: State,
    action: Action,
    rows: u16,
    after: Main,
    state_after: State,
    effects: Seq<Effect>,
)
    requires
        main.acted(state, action, rows, after, state_after, effects),
        main.mode is Jobs ==> (main.selected_job.selected matches Some(i) ==> i
            >= main.jobs@.len()),
        main.mode is Pipelines ==> (main.selected_pipeline.selected matches Some(i) ==> i
            >= main.pipelines@.len()),
        main.mode is PipeDiff ==> (main.selected_pipediff.selected matches Some(i) ==> i
            >= main.pipediffs@.len()),
        action is OpenInBrowser || action is OpenPreviousInBrowser || action is GitLog || action
            is CancelPipeline || action is Retry || action is PlayJob || action is Delete || (
        action is DeletePipeline && !(main.mode is Jobs)) || (action is Enter && !(
        main.pipelines_select_for_diff is Some)),
    ensures
        after == main,
        state_after == state,
        effects == Seq::<Effect>::empty(),
{
}

/// Keys for another list than the one that is shown do nothing.
pub proof fn keys_belong_to_their_list(
    main: Main,
    state: State,
    action: Action,
    rows: u16,
    after: Main,
    state_after: State,
    effects: Seq<Effect>,
)
    requires
        main.acted(state, action, rows, after, state_after, effects),
        ({
            ||| action is ToggleManualJobs && !(main.mode is Jobs)
            ||| action is PlayJob && !(main.mode is Jobs)
            ||| action is ToggleUsernameResolve && !(main.mode is Pipelines)
            ||| action is ToggleAllRefs && !(main.mode is Pipelines)
            ||| action is GitLog && !(main.mode is Pipelines)
            ||| action is Delete && !(main.mode is Pipelines)
            ||| action is OpenPreviousInBrowser && !(main.mode is PipeDiff)
            ||| (action is DeletePipeline || action is CancelPipeline || action is Retry)
                && main.mode is PipeDiff
            ||| action is ConfirmAction && !(main.mode is Modal)
        }),
    ensures
        after == main,
        state_after == state,
        effects == Seq::<Effect>::empty(),
{
}

/// Going back leads to what was shown before, which is then fetched anew; it is gone back to
/// once. Without anything to go back to, nothing happens.
pub proof fn going_back_leads_there(
    main: Main,
    state: State,
    action: Action,
    rows: u16,
    after: Main,
    state_after: State,
    effects: Seq<Effect>,
)
    requires
        main.acted(state, action, rows, after, state_after, effects),
        action is GoBack || (action is QuitOrGoBack && main.prev_mode is Some),
        !(main.mode is Modal),
    ensures
        main.prev_mode matches Some(mode) ==> {
            &&& after.mode == mode
            &&& after.prev_mode is None
            &&& after.first_load
            &&& effects == seq![Effect::Send(RxCmd::UpdateMode(mode))]
        },
        main.prev_mode is None ==> after == main && effects == Seq::<Effect>::empty(),
        state_after == state,
        after.leave == main.leave,
{
}

/// The help is shown over what was shown, which can be gone back to.
pub proof fn help_can_be_left(
    main: Main,
    state: State,
    action: Action,
    rows: u16,
    after: Main,
    state_after: State,
    effects: Seq<Effect>,
)
    requires
        main.acted(state, action, rows, after, state_after, effects),
        action is Help,
    ensures
        after.mode is Help,
        after.prev_mode == Some(main.mode),
        state_after == state,
        effects == Seq::<Effect>::empty(),
        after.leave == main.leave,
{
}

/// Turning the look-up of users on or off changes nothing else of the mode, and the thread
/// that talks to the server is told of it.
pub proof fn users_are_switched(
    main: Main,
    state: State,
    action: Action,
    rows: u16,
    after: Main,
    state_after: State,
    effects: Seq<Effect>,
    info: PipelinesMode,
)
    requires
        main.acted(state, action, rows, after, state_after, effects),
        action is ToggleUsernameResolve,
        main.mode == RunMode::Pipelines(info),
    ensures
        after.mode matches RunMode::Pipelines(now) && now.resolve_usernames
            != info.resolve_usernames && now.ref_name == info.ref_name && now.commithash
            == info.commithash && now.all_users == info.all_users && now.custom_username
            == info.custom_username && now.nr_pipelines == info.nr_pipelines,
        effects == seq![Effect::Send(RxCmd::UpdateMode(after.mode))],
        state_after == state,
        after.prev_mode == main.prev_mode,
        after.first_load == main.first_load,
{
}

/// Turning manual jobs on or off keeps the pipeline; its jobs are asked for anew, and the
/// thread that talks to the server is told of both.
pub proof fn manual_jobs_are_switched(
    main: Main,
    state: State,
    action: Action,
    rows: u16,
    after: Main,
    state_after: State,
    effects: Seq<Effect>,
    info: JobsMode,
)
    requires
        main.acted(state, action, rows, after, state_after, effects),
        action is ToggleManualJobs,
        main.mode == RunMode::Jobs(info),
    ensures
        after.mode == RunMode::Jobs(
            JobsMode { pipeline_id: info.pipeline_id, manual_jobs: !info.manual_jobs },
        ),
        state_after.jobs.update,
        state_after.jobs.data == state.jobs.data,
        state_after.pipelines == state.pipelines,
        state_after.request_queue == state.request_queue,
        effects == seq![
            Effect::Send(RxCmd::UpdateMode(after.mode)),
            Effect::Send(RxCmd::Refresh),
        ],
        after.prev_mode == main.prev_mode,
{
}

/// Going to all branches keeps the branch in mind, and going back takes it from there; the
/// list is fetched anew; and nothing else of the mode changes.
pub proof fn branches_are_switched(
    main: Main,
    state: State,
    action: Action,
    rows: u16,
    after: Main,
    state_after: State,
    effects: Seq<Effect>,
    info: PipelinesMode,
)
    requires
        main.acted(state, action, rows, after, state_after, effects),
        action is ToggleAllRefs,
        main.mode == RunMode::Pipelines(info),
    ensures
        after.mode matches RunMode::Pipelines(now) && now.resolve_usernames
            == info.resolve_usernames && now.commithash == info.commithash && now.all_users
            == info.all_users && now.custom_username == info.custom_username && now.nr_pipelines
            == info.nr_pipelines && (info.ref_name is Some ==> now.ref_name is None
            && after.ref_save == info.ref_name) && (info.ref_name is None ==> now.ref_name
            == main.ref_save && after.ref_save is None),
        state_after.pipelines.data is None,
        state_after.jobs == state.jobs,
        state_after.pipediff == state.pipediff,
        state_after.request_queue == state.request_queue,
        effects == seq![Effect::Send(RxCmd::UpdateMode(after.mode))],
        after.prev_mode == main.prev_mode,
{
}

/// Two pipelines are picked by one key, the second newest as the older and the newest as the
/// newer one, and given up by the same; either is then replaced by the selected one, unless
/// that is the other.
pub proof fn ends_are_picked(
    main: Main,
    state: State,
    action: Action,
    rows: u16,
    after: Main,
    state_after: State,
    effects: Seq<Effect>,
)
    requires
        main.acted(state, action, rows, after, state_after, effects),
        action is Diff || action is SetFromDiff || action is SetToDiff,
    ensures
        action is Diff && main.pipelines_select_for_diff is Some
            ==> after.pipelines_select_for_diff is None,
        action is Diff && main.pipelines_select_for_diff is None && main.pipelines@.len() >= 2
            ==> after.pipelines_select_for_diff == Some(
            (Some(main.pipelines@[1].id), Some(main.pipelines@[0].id)),
        ),
        action is Diff && main.pipelines_select_for_diff is None && main.pipelines@.len() < 2
            ==> after == main,
        !(action is Diff) && main.pipelines_select_for_diff is None ==> after == main,
        main.pipelines_select_for_diff matches Some((Some(from), Some(to))) ==> (
        main.selected_pipeline.selected matches Some(i) ==> i < main.pipelines@.len() ==> {
            let id = main.pipelines@[i as int].id;
            &&& action is SetFromDiff ==> after.pipelines_select_for_diff == Some(
                (
                    Some(
                        if id == to {
                            from
                        } else {
                            id
                        },
                    ),
                    Some(to),
                ),
            )
            &&& action is SetToDiff ==> after.pipelines_select_for_diff == Some(
                (
                    Some(from),
                    Some(
                        if id == from {
                            to
                        } else {
                            id
                        },
                    ),
                ),
            )
        }),
        state_after == state,
        effects == Seq::<Effect>::empty(),
        after.mode == main.mode,
{
}

/// The keys for steps move the selection of the list of pipelines by a step or a page, but no
/// further than to either end, and those for the ends to them.
pub proof fn steps_move_in_pipelines(
    main: Main,
    state: State,
    action: Action,
    rows: u16,
    after: Main,
    state_after: State,
    effects: Seq<Effect>,
    i: usize,
)
    requires
        main.acted(state, action, rows, after, state_after, effects),
        action is Up || action is Down || action is PageUp || action is PageDown || action is Home
            || action is End,
        main.mode is Pipelines,
        main.selected_pipeline.selected == Some(i),
        i < main.pipelines@.len(),
        main.pipelines@.len() <= state.pipelines.items().len(),
    ensures
        ({
            let last = main.pipelines@.len() - 1;
            let page: int = if rows >= 2 {
                rows - 2
            } else {
                0
            };
            let place: int = match action {
                Action::Up => i - 1,
                Action::PageUp => i - page,
                Action::Down => i + 1,
                Action::PageDown => i + page,
                Action::Home => 0,
                _ => last,
            };
            after.selected_pipeline.selected == Some(
                if place < 0 {
                    0
                } else if place > last {
                    last as usize
                } else {
                    place as usize
                },
            )
        }),
        after.mode == main.mode,
        state_after == state,
        effects == Seq::<Effect>::empty(),
{
    let data = state.pipelines;
    let shown = Some(main.pipelines.len());
    shown_items_are_selectable(data, None, i as nat);
    shown_items_are_selectable(data, shown, i as nat);
    let n: nat = if action is Up || action is Down {
        1
    } else {
        page(rows) as nat
    };
    assert(data.selectable(shown) == main.pipelines@.len());
    pages_lead_on(data, main.selected_pipeline, None, i, n);
    pages_lead_on(data, main.selected_pipeline, shown, i, n);
    data.selection_in_range(main.selected_pipeline, None);
    data.selection_in_range(main.selected_pipeline, shown);
}

/// The keys for steps move the selection of the list of jobs by a step or a page, but no
/// further than to either end, and those for the ends to them.
pub proof fn steps_move_in_jobs(
    main: Main,
    state: State,
    action: Action,
    rows: u16,
    after: Main,
    state_after: State,
    effects: Seq<Effect>,
    i: usize,
)
    requires
        main.acted(state, action, rows, after, state_after, effects),
        action is Up || action is Down || action is PageUp || action is PageDown || action is Home
            || action is End,
        main.mode is Jobs,
        main.selected_job.selected == Some(i),
        i < main.jobs@.len(),
        main.jobs@.len() <= state.jobs.items().len(),
    ensures
        ({
            let last = main.jobs@.len() - 1;
            let page: int = if rows >= 2 {
                rows - 2
            } else {
                0
            };
            let place: int = match action {
                Action::Up => i - 1,
                Action::PageUp => i - page,
                Action::Down => i + 1,
                Action::PageDown => i + page,
                Action::Home => 0,
                _ => last,
            };
            after.selected_job.selected == Some(
                if place < 0 {
                    0
                } else if place > last {
                    last as usize
                } else {
                    place as usize
                },
            )
        }),
        after.mode == main.mode,
        state_after == state,
        effects == Seq::<Effect>::empty(),
{
    let data = state.jobs;
    let shown = Some(main.jobs.len());
    shown_items_are_selectable(data, None, i as nat);
    shown_items_are_selectable(data, shown, i as nat);
    let n: nat = if action is Up || action is Down {
        1
    } else {
        page(rows) as nat
    };
    assert(data.selectable(shown) == main.jobs@.len());
    pages_lead_on(data, main.selected_job, None, i, n);
    pages_lead_on(data, main.selected_job, shown, i, n);
    data.selection_in_range(main.selected_job, None);
    data.selection_in_range(main.selected_job, shown);
}

/// The keys for steps move the selection of the list of pipediff by a step or a page, but no
/// further than to either end, and those for the ends to them.
pub proof fn steps_move_in_pipediff(
    main: Main,
    state: State,
    action: Action,
    rows: u16,
    after: Main,
    state_after: State,
    effects: Seq<Effect>,
    i: usize,
)
    requires
        main.acted(state, action, rows, after, state_after, effects),
        action is Up || action is Down || action is PageUp || action is PageDown || action is Home
            || action is End,
        main.mode is PipeDiff,
        main.selected_pipediff.selected == Some(i),
        i < main.pipediffs@.len(),
        main.pipediffs@.len() <= state.pipediff.items().len(),
    ensures
        ({
            let last = main.pipediffs@.len() - 1;
            let page: int = if rows >= 2 {
                rows - 2
            } else {
                0
            };
            let place: int = match action {
                Action::Up => i - 1,
                Action::PageUp => i - page,
                Action::Down => i + 1,
                Action::PageDown => i + page,
                Action::Home => 0,
                _ => last,
            };
            after.selected_pipediff.selected == Some(
                if place < 0 {
                    0
                } else if place > last {
                    last as usize
                } else {
                    place as usize
                },
            )
        }),
        after.mode == main.mode,
        state_after == state,
        effects == Seq::<Effect>::empty(),
{
    let data = state.pipediff;
    let shown = Some(main.pipediffs.len());
    shown_items_are_selectable(data, None, i as nat);
    shown_items_are_selectable(data, shown, i as nat);
    let n: nat = if action is Up || action is Down {
        1
    } else {
        page(rows) as nat
    };
    assert(data.selectable(shown) == main.pipediffs@.len());
    pages_lead_on(data, main.selected_pipediff, None, i, n);
    pages_lead_on(data, main.selected_pipediff, shown, i, n);
    data.selection_in_range(main.selected_pipediff, None);
    data.selection_in_range(main.selected_pipediff, shown);
}

} // verus!
