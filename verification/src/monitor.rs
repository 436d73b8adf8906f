//! The monitor: what is shown, what is selected, and what each action does.

use crate::config::Config;
use crate::diff::JobDiff;
use crate::keys::Action;
use crate::model::{Job, Pipeline, Request, User};
use crate::modes::{JobsMode, PipeDiff, PipelinesMode, RunMode, RxCmd};
use crate::screen::DiffChoice;
use crate::state::State;
use crate::updatable::Selection;
#[allow(unused_imports)]
use crate::updatable::Updatable;
use std::collections::HashSet;
use vstd::prelude::*;

verus! {

broadcast use vstd::std_specs::hash::group_hash_axioms;

/// Something that is left to do after an action.
#[derive(Debug)]
pub enum Effect {
    /// Tell the thread that talks to the server.
    Send(RxCmd),
    /// Run the command that opens a job, for a job of the given pipeline.
    EnterJob(Job, u64),
    /// Run the command that goes with the retry of a job, for a job of the given
    /// pipeline.
    RetryHook(Job, u64),
    /// Open the page of a job.
    OpenJobPage(u64),
    /// Open the page of a pipeline.
    OpenPipelinePage(u64),
    /// Show the log of a commit.
    GitLog(String),
    /// Go up one line in the help.
    HelpUp,
    /// Go down one line in the help.
    HelpDown,
}

/// The monitor.
#[derive(Debug)]
pub struct Main {
    /// What was shown before, and is gone back to.
    pub prev_mode: Option<RunMode>,
    pub mode: RunMode,
    pub selected_pipeline: Selection,
    pub selected_job: Selection,
    pub selected_pipediff: Selection,
    /// The pipelines that are hidden.
    pub ignored_pipeline_ids: HashSet<u64>,
    /// The pipelines that are shown.
    pub pipelines: Vec<Pipeline>,
    /// The jobs that are shown.
    pub jobs: Vec<Job>,
    /// The differences that are shown.
    pub pipediffs: Vec<JobDiff>,
    /// The branch to go back to from all branches.
    pub ref_save: Option<String>,
    pub config: Config,
    pub debug: bool,
    /// Whether all is over.
    pub leave: bool,
    pub pipediff_hide_unchanged: bool,
    /// The pipelines that are to be compared.
    pub pipelines_select_for_diff: DiffChoice,
    pub non_interactive: bool,
    pub json_output: bool,
    pub auto_refresh: bool,
    /// Whether data is to be fetched that was not asked for before.
    pub first_load: bool,
    pub current_user: User,
}

/// The place of the selected item, if there is one.
pub open spec fn place(selection: Selection, len: nat) -> Option<int> {
    match selection.selected {
        Some(selected) => if selected < len {
            Some(selected as int)
        } else {
            None
        },
        None => None,
    }
}

fn place_in(selection: &Selection, len: usize) -> (found: Option<usize>)
    ensures
        match place(*selection, len as nat) {
            Some(i) => found == Some(i as usize) && i < len,
            None => found is None,
        },
{
    match selection.selected {
        Some(selected) => if selected < len {
            Some(selected)
        } else {
            None
        },
        None => None,
    }
}

/// `n` times `effect`.
pub open spec fn repeated(effect: Effect, n: nat) -> Seq<Effect> {
    Seq::new(n, |i: int| effect)
}

impl Main {
    /// The monitor at its start.
    pub fn new(
        config: Config,
        current_user: User,
        mode: RunMode,
        debug: bool,
        non_interactive: bool,
        json_output: bool,
        disable_auto_refresh: bool,
    ) -> (main: Main)
        ensures
            main.prev_mode is None,
            main.mode == mode,
            main.selected_pipeline == (Selection { selected: None, rewound: false }),
            main.selected_job == (Selection { selected: None, rewound: false }),
            main.selected_pipediff == (Selection { selected: None, rewound: false }),
            main.ignored_pipeline_ids@ == Set::<u64>::empty(),
            main.pipelines@ == Seq::<Pipeline>::empty(),
            main.jobs@ == Seq::<Job>::empty(),
            main.pipediffs@ == Seq::<JobDiff>::empty(),
            main.ref_save is None,
            main.config == config,
            main.debug == debug,
            !main.leave,
            main.pipediff_hide_unchanged,
            main.pipelines_select_for_diff is None,
            main.non_interactive == (non_interactive || mode is Nothing),
            main.json_output == json_output,
            main.auto_refresh == !disable_auto_refresh,
            main.first_load,
            main.current_user == current_user,
    {
        let nothing = match mode {
            RunMode::Nothing => true,
            _ => false,
        };
        Main {
            prev_mode: None,
            mode,
            selected_pipeline: Selection::new(),
            selected_job: Selection::new(),
            selected_pipediff: Selection::new(),
            ignored_pipeline_ids: HashSet::new(),
            pipelines: Vec::new(),
            jobs: Vec::new(),
            pipediffs: Vec::new(),
            ref_save: None,
            config,
            debug,
            leave: false,
            pipediff_hide_unchanged: true,
            pipelines_select_for_diff: None,
            non_interactive: non_interactive || nothing,
            json_output,
            auto_refresh: !disable_auto_refresh,
            first_load: true,
            current_user,
        }
    }

    /// Whether the screen is taken over.
    pub fn uses_terminal(&self) -> (uses: bool)
        ensures
            uses == (!self.debug && !self.non_interactive),
    {
        !self.debug && !self.non_interactive
    }

    /// The selected pipeline.
    pub open spec fn chosen_pipeline(self) -> Option<Pipeline> {
        match place(self.selected_pipeline, self.pipelines@.len()) {
            Some(i) => Some(self.pipelines@[i]),
            None => None,
        }
    }

    /// The selected job.
    pub open spec fn chosen_job(self) -> Option<Job> {
        match place(self.selected_job, self.jobs@.len()) {
            Some(i) => Some(self.jobs@[i]),
            None => None,
        }
    }

    /// The selected difference.
    pub open spec fn chosen_diff(self) -> Option<JobDiff> {
        match place(self.selected_pipediff, self.pipediffs@.len()) {
            Some(i) => Some(self.pipediffs@[i]),
            None => None,
        }
    }

    /// The monitor after `n` steps up in the list that is shown.
    pub open spec fn moved_up(self, state: State, n: nat) -> Main {
        match self.mode {
            RunMode::Jobs(_) => Main {
                selected_job: state.jobs.ups(self.selected_job, None, n),
                ..self
            },
            RunMode::Pipelines(_) => Main {
                selected_pipeline: state.pipelines.ups(self.selected_pipeline, None, n),
                ..self
            },
            RunMode::PipeDiff(_) => Main {
                selected_pipediff: state.pipediff.ups(self.selected_pipediff, None, n),
                ..self
            },
            _ => self,
        }
    }

    /// The monitor after `n` steps down in the list that is shown.
    pub open spec fn moved_down(self, state: State, n: nat) -> Main {
        match self.mode {
            RunMode::Jobs(_) => Main {
                selected_job: state.jobs.downs(self.selected_job, Some(self.jobs.len()), n),
                ..self
            },
            RunMode::Pipelines(_) => Main {
                selected_pipeline: state.pipelines.downs(
                    self.selected_pipeline,
                    Some(self.pipelines.len()),
                    n,
                ),
                ..self
            },
            RunMode::PipeDiff(_) => Main {
                selected_pipediff: state.pipediff.downs(
                    self.selected_pipediff,
                    Some(self.pipediffs.len()),
                    n,
                ),
                ..self
            },
            _ => self,
        }
    }

    /// Whether `n` steps down can be made.
    pub open spec fn down_fits(self, state: State, n: nat) -> bool {
        match self.mode {
            RunMode::Jobs(_) => state.jobs.downs_fit(
                self.selected_job,
                Some(self.jobs.len()),
                n,
            ),
            RunMode::Pipelines(_) => state.pipelines.downs_fit(
                self.selected_pipeline,
                Some(self.pipelines.len()),
                n,
            ),
            RunMode::PipeDiff(_) => state.pipediff.downs_fit(
                self.selected_pipediff,
                Some(self.pipediffs.len()),
                n,
            ),
            _ => true,
        }
    }

    /// `n` steps in the help, if it is shown.
    pub open spec fn help_steps(self, step: Effect, n: nat) -> Seq<Effect> {
        if self.mode is Help {
            repeated(step, n)
        } else {
            Seq::empty()
        }
    }

    /// Goes `n` steps up in the list that is shown.
    pub fn on_up(&mut self, state: &State, n: u16) -> (effects: Vec<Effect>)
        ensures
            *final(self) == old(self).moved_up(*state, n as nat),
            effects@ == old(self).help_steps(Effect::HelpUp, n as nat),
    {
        let mut effects: Vec<Effect> = Vec::new();
        match &self.mode {
            RunMode::Help => {
                let mut i: u16 = 0;
                while i < n
                    invariant
                        i <= n,
                        effects@ =~= repeated(Effect::HelpUp, i as nat),
                    decreases n - i,
                {
                    effects.push(Effect::HelpUp);
                    i += 1;
                }
            },
            RunMode::Jobs(_) => state.jobs.page_up(&mut self.selected_job, None, n),
            RunMode::Pipelines(_) => state.pipelines.page_up(&mut self.selected_pipeline, None, n),
            RunMode::PipeDiff(_) => state.pipediff.page_up(&mut self.selected_pipediff, None, n),
            _ => {},
        }
        effects
    }

    /// Goes `n` steps down in the list that is shown.
    pub fn on_down(&mut self, state: &State, n: u16) -> (effects: Vec<Effect>)
        requires
            old(self).down_fits(*state, n as nat),
        ensures
            *final(self) == old(self).moved_down(*state, n as nat),
            effects@ == old(self).help_steps(Effect::HelpDown, n as nat),
    {
        let mut effects: Vec<Effect> = Vec::new();
        match &self.mode {
            RunMode::Help => {
                let mut i: u16 = 0;
                while i < n
                    invariant
                        i <= n,
                        effects@ =~= repeated(Effect::HelpDown, i as nat),
                    decreases n - i,
                {
                    effects.push(Effect::HelpDown);
                    i += 1;
                }
            },
            RunMode::Jobs(_) => {
                let shown = self.jobs.len();
                state.jobs.page_down(&mut self.selected_job, Some(shown), n)
            },
            RunMode::Pipelines(_) => {
                let shown = self.pipelines.len();
                state.pipelines.page_down(&mut self.selected_pipeline, Some(shown), n)
            },
            RunMode::PipeDiff(_) => {
                let shown = self.pipediffs.len();
                state.pipediff.page_down(&mut self.selected_pipediff, Some(shown), n)
            },
            _ => {},
        }
        effects
    }

    /// The monitor after the selection went to the first item.
    pub open spec fn at_top(self, state: State) -> Main {
        match self.mode {
            RunMode::Jobs(_) => Main {
                selected_job: state.jobs.fixed(self.selected_job.moved(Some(0)), None),
                ..self
            },
            RunMode::Pipelines(_) => Main {
                selected_pipeline: state.pipelines.fixed(
                    self.selected_pipeline.moved(Some(0)),
                    None,
                ),
                ..self
            },
            RunMode::PipeDiff(_) => Main {
                selected_pipediff: state.pipediff.fixed(
                    self.selected_pipediff.moved(Some(0)),
                    None,
                ),
                ..self
            },
            _ => self,
        }
    }

    /// The monitor after the selection went to the last item that is shown.
    pub open spec fn at_end(self, state: State) -> Main {
        match self.mode {
            RunMode::Jobs(_) => Main {
                selected_job: state.jobs.fixed(
                    self.selected_job.moved(Some(usize::MAX)),
                    Some(self.jobs.len()),
                ),
                ..self
            },
            RunMode::Pipelines(_) => Main {
                selected_pipeline: state.pipelines.fixed(
                    self.selected_pipeline.moved(Some(usize::MAX)),
                    Some(self.pipelines.len()),
                ),
                ..self
            },
            RunMode::PipeDiff(_) => Main {
                selected_pipediff: state.pipediff.fixed(
                    self.selected_pipediff.moved(Some(usize::MAX)),
                    Some(self.pipediffs.len()),
                ),
                ..self
            },
            _ => self,
        }
    }

    /// Goes to the first item of the list that is shown.
    pub fn goto_top_of_list(&mut self, state: &State)
        ensures
            *final(self) == old(self).at_top(*state),
    {
        match &self.mode {
            RunMode::Jobs(_) => state.jobs.home(&mut self.selected_job, None),
            RunMode::Pipelines(_) => state.pipelines.home(&mut self.selected_pipeline, None),
            RunMode::PipeDiff(_) => state.pipediff.home(&mut self.selected_pipediff, None),
            _ => {},
        }
    }

    /// Goes to the last item of the list that is shown.
    pub fn goto_end_of_list(&mut self, state: &State)
        ensures
            *final(self) == old(self).at_end(*state),
    {
        match &self.mode {
            RunMode::Jobs(_) => {
                let shown = self.jobs.len();
                state.jobs.end(&mut self.selected_job, Some(shown))
            },
            RunMode::Pipelines(_) => {
                let shown = self.pipelines.len();
                state.pipelines.end(&mut self.selected_pipeline, Some(shown))
            },
            RunMode::PipeDiff(_) => {
                let shown = self.pipediffs.len();
                state.pipediff.end(&mut self.selected_pipediff, Some(shown))
            },
            _ => {},
        }
    }

    /// Whether `after` and `effects` are what going back leaves: what was shown
    /// before is shown again, if something was, and the server is asked for it.
    pub open spec fn went_back(self, after: Main, effects: Seq<Effect>) -> bool {
        match self.prev_mode {
            Some(mode) => {
                &&& after == Main { mode, prev_mode: None, first_load: true, ..self }
                &&& effects == seq![Effect::Send(RxCmd::UpdateMode(mode))]
            },
            None => after == self && effects == Seq::<Effect>::empty(),
        }
    }

    /// Shows again what was shown before.
    pub fn go_to_previous_mode(&mut self) -> (effects: Vec<Effect>)
        ensures
            old(self).went_back(*final(self), effects@),
    {
        let mut effects: Vec<Effect> = Vec::new();
        match &self.prev_mode {
            Some(mode) => {
                let mode = mode.clone();
                self.prev_mode = None;
                effects.push(Effect::Send(RxCmd::UpdateMode(mode.clone())));
                self.mode = mode;
                self.first_load = true;
            },
            None => {},
        }
        effects
    }

    /// The monitor after the selected pipeline was made one of the two to compare. A
    /// pipeline is not compared with itself.
    pub open spec fn with_diff_end(self, set_from: bool) -> Main {
        match (self.pipelines_select_for_diff, self.chosen_pipeline()) {
            (Some((Some(from), Some(to))), Some(pipeline)) => Main {
                pipelines_select_for_diff: Some(
                    if set_from {
                        (
                            Some(
                                if pipeline.id != to {
                                    pipeline.id
                                } else {
                                    from
                                },
                            ),
                            Some(to),
                        )
                    } else {
                        (
                            Some(from),
                            Some(
                                if pipeline.id != from {
                                    pipeline.id
                                } else {
                                    to
                                },
                            ),
                        )
                    },
                ),
                ..self
            },
            _ => self,
        }
    }

    /// Makes the selected pipeline one of the two to compare.
    pub fn on_set_pipediff_range(&mut self, set_from: bool)
        ensures
            *final(self) == old(self).with_diff_end(set_from),
    {
        if let Some((Some(from), Some(to))) = self.pipelines_select_for_diff {
            if let Some(selected) = place_in(&self.selected_pipeline, self.pipelines.len()) {
                let id = self.pipelines[selected].id;
                if set_from {
                    if id != to {
                        self.pipelines_select_for_diff = Some((Some(id), Some(to)));
                    }
                } else {
                    if id != from {
                        self.pipelines_select_for_diff = Some((Some(from), Some(id)));
                    }
                }
            }
        }
    }

    /// Whether `after`, `state_after` and `effects` are what entering the selected
    /// item leaves: the command for a job is run, the two pipelines that are to be
    /// compared are compared, or the jobs of a pipeline are shown.
    pub open spec fn entered(
        self,
        state: State,
        after: Main,
        state_after: State,
        effects: Seq<Effect>,
    ) -> bool {
        let nothing = after == self && state_after == state && effects == Seq::<Effect>::empty();
        match self.mode {
            RunMode::Jobs(info) => match self.chosen_job() {
                Some(job) => {
                    &&& after == self && state_after == state
                    &&& effects == seq![Effect::EnterJob(job, info.pipeline_id)]
                },
                None => nothing,
            },
            RunMode::PipeDiff(info) => match self.chosen_diff() {
                Some(JobDiff::Both(_, b)) => {
                    &&& after == self && state_after == state
                    &&& effects == seq![Effect::EnterJob(b.1, info.to)]
                },
                _ => nothing,
            },
            RunMode::Pipelines(_) => match (self.pipelines_select_for_diff, self.chosen_pipeline()) {
                (Some((Some(from), Some(to))), _) => {
                    let mode = RunMode::PipeDiff(PipeDiff { from, to });
                    &&& after == Main {
                        mode,
                        prev_mode: Some(self.mode),
                        selected_pipediff: self.selected_pipediff.moved(None),
                        first_load: true,
                        ..self
                    }
                    &&& state_after == State {
                        pipediff: Updatable { data: None, ..state.pipediff },
                        ..state
                    }
                    &&& effects == seq![Effect::Send(RxCmd::UpdateMode(mode))]
                },
                (_, Some(pipeline)) => {
                    let mode = RunMode::Jobs(
                        JobsMode { pipeline_id: pipeline.id, manual_jobs: false },
                    );
                    &&& after == Main {
                        mode,
                        prev_mode: Some(self.mode),
                        selected_job: self.selected_job.moved(None),
                        first_load: true,
                        ..self
                    }
                    &&& state_after == State {
                        jobs: Updatable { data: None, ..state.jobs },
                        ..state
                    }
                    &&& effects == seq![Effect::Send(RxCmd::UpdateMode(mode))]
                },
                _ => nothing,
            },
            _ => nothing,
        }
    }

    /// Enters the selected item.
    pub fn on_enter(&mut self, state: &mut State) -> (effects: Vec<Effect>)
        ensures
            old(self).entered(*old(state), *final(self), *final(state), effects@),
    {
        let mut effects: Vec<Effect> = Vec::new();
        match &self.mode {
            RunMode::Jobs(info) => {
                if let Some(selected) = place_in(&self.selected_job, self.jobs.len()) {
                    effects.push(
                        Effect::EnterJob(self.jobs[selected].clone(), info.pipeline_id),
                    );
                }
            },
            RunMode::PipeDiff(info) => {
                if let Some(selected) = place_in(&self.selected_pipediff, self.pipediffs.len()) {
                    if let JobDiff::Both(_, b) = &self.pipediffs[selected] {
                        effects.push(Effect::EnterJob(b.1.clone(), info.to));
                    }
                }
            },
            RunMode::Pipelines(info) => {
                if let Some((Some(from), Some(to))) = self.pipelines_select_for_diff {
                    let mode = RunMode::PipeDiff(PipeDiff { from, to });
                    self.prev_mode = Some(RunMode::Pipelines(info.clone()));
                    effects.push(Effect::Send(RxCmd::UpdateMode(mode.clone())));
                    self.mode = mode;
                    self.selected_pipediff.select(None);
                    self.first_load = true;
                    state.pipediff.data = None;
                } else if let Some(selected) = place_in(
                    &self.selected_pipeline,
                    self.pipelines.len(),
                ) {
                    let mode = RunMode::Jobs(
                        JobsMode { pipeline_id: self.pipelines[selected].id, manual_jobs: false },
                    );
                    self.prev_mode = Some(RunMode::Pipelines(info.clone()));
                    effects.push(Effect::Send(RxCmd::UpdateMode(mode.clone())));
                    self.mode = mode;
                    self.selected_job.select(None);
                    self.first_load = true;
                    state.jobs.data = None;
                }
            },
            _ => {},
        }
        effects
    }

    /// What opening the selected item in the browser asks for.
    pub open spec fn pages(self) -> Seq<Effect> {
        match self.mode {
            RunMode::Jobs(_) => match self.chosen_job() {
                Some(job) => seq![Effect::OpenJobPage(job.id)],
                None => Seq::empty(),
            },
            RunMode::PipeDiff(_) => match self.chosen_diff() {
                Some(JobDiff::Both(_, b)) => seq![Effect::OpenJobPage(b.1.id)],
                _ => Seq::empty(),
            },
            RunMode::Pipelines(_) => match self.chosen_pipeline() {
                Some(pipeline) => seq![Effect::OpenPipelinePage(pipeline.id)],
                None => Seq::empty(),
            },
            _ => Seq::empty(),
        }
    }

    /// Opens the selected item in the browser.
    pub fn open_browser(&self) -> (effects: Vec<Effect>)
        ensures
            effects@ == self.pages(),
    {
        let mut effects: Vec<Effect> = Vec::new();
        match &self.mode {
            RunMode::Jobs(_) => {
                if let Some(selected) = place_in(&self.selected_job, self.jobs.len()) {
                    effects.push(Effect::OpenJobPage(self.jobs[selected].id));
                }
            },
            RunMode::PipeDiff(_) => {
                if let Some(selected) = place_in(&self.selected_pipediff, self.pipediffs.len()) {
                    if let JobDiff::Both(_, b) = &self.pipediffs[selected] {
                        effects.push(Effect::OpenJobPage(b.1.id));
                    }
                }
            },
            RunMode::Pipelines(_) => {
                if let Some(selected) = place_in(&self.selected_pipeline, self.pipelines.len()) {
                    effects.push(Effect::OpenPipelinePage(self.pipelines[selected].id));
                }
            },
            _ => {},
        }
        effects
    }

    /// What opening the older job of the selected difference in the browser asks for.
    pub open spec fn previous_job(self) -> Seq<Effect> {
        match (self.mode, self.chosen_diff()) {
            (RunMode::PipeDiff(_), Some(JobDiff::Both(a, _))) => seq![
                Effect::OpenJobPage(a.1.id),
            ],
            _ => Seq::empty(),
        }
    }

    /// Opens the older job of the selected difference in the browser.
    pub fn open_previous(&self) -> (effects: Vec<Effect>)
        ensures
            effects@ == self.previous_job(),
    {
        let mut effects: Vec<Effect> = Vec::new();
        if let RunMode::PipeDiff(_) = &self.mode {
            if let Some(selected) = place_in(&self.selected_pipediff, self.pipediffs.len()) {
                if let JobDiff::Both(a, _) = &self.pipediffs[selected] {
                    effects.push(Effect::OpenJobPage(a.1.id));
                }
            }
        }
        effects
    }

    /// What opening the commit of the selected pipeline asks for.
    pub open spec fn commit_log(self) -> Seq<Effect> {
        match (self.mode, self.config.local_repo, self.chosen_pipeline()) {
            (RunMode::Pipelines(_), Some(_), Some(pipeline)) => seq![Effect::GitLog(pipeline.sha)],
            _ => Seq::empty(),
        }
    }

    /// Opens the commit of the selected pipeline, if there is a local repository.
    pub fn open_git_log(&self) -> (effects: Vec<Effect>)
        ensures
            effects@ == self.commit_log(),
    {
        let mut effects: Vec<Effect> = Vec::new();
        if let RunMode::Pipelines(_) = &self.mode {
            if self.config.local_repo.is_some() {
                if let Some(selected) = place_in(&self.selected_pipeline, self.pipelines.len()) {
                    effects.push(Effect::GitLog(self.pipelines[selected].sha.clone()));
                }
            }
        }
        effects
    }

    /// Whether `after` and `effects` are what turning the look-up of users on or off
    /// leaves.
    pub open spec fn toggled_usernames(self, after: Main, effects: Seq<Effect>) -> bool {
        match self.mode {
            RunMode::Pipelines(info) => {
                let mode = RunMode::Pipelines(
                    PipelinesMode { resolve_usernames: !info.resolve_usernames, ..info },
                );
                &&& after == Main { mode, ..self }
                &&& effects == seq![Effect::Send(RxCmd::UpdateMode(mode))]
            },
            _ => after == self && effects == Seq::<Effect>::empty(),
        }
    }

    /// Turns the look-up of users on or off.
    pub fn toggle_username_resolve(&mut self) -> (effects: Vec<Effect>)
        ensures
            old(self).toggled_usernames(*final(self), effects@),
    {
        let mut effects: Vec<Effect> = Vec::new();
        if let RunMode::Pipelines(info) = &mut self.mode {
            info.resolve_usernames = !info.resolve_usernames;
            effects.push(Effect::Send(RxCmd::UpdateMode(self.mode.clone())));
        }
        effects
    }

    /// Whether `after`, `state_after` and `effects` are what turning manual jobs on or
    /// off leaves.
    pub open spec fn toggled_manual(
        self,
        state: State,
        after: Main,
        state_after: State,
        effects: Seq<Effect>,
    ) -> bool {
        match self.mode {
            RunMode::Jobs(info) => {
                let mode = RunMode::Jobs(JobsMode { manual_jobs: !info.manual_jobs, ..info });
                &&& after == Main { mode, ..self }
                &&& state_after == State {
                    jobs: Updatable { update: true, ..state.jobs },
                    ..state
                }
                &&& effects == seq![
                    Effect::Send(RxCmd::UpdateMode(mode)),
                    Effect::Send(RxCmd::Refresh),
                ]
            },
            _ => after == self && state_after == state && effects == Seq::<Effect>::empty(),
        }
    }

    /// Turns manual jobs on or off.
    pub fn toggle_manual_jobs(&mut self, state: &mut State) -> (effects: Vec<Effect>)
        ensures
            old(self).toggled_manual(*old(state), *final(self), *final(state), effects@),
    {
        let mut effects: Vec<Effect> = Vec::new();
        if let RunMode::Jobs(info) = &mut self.mode {
            info.manual_jobs = !info.manual_jobs;
            effects.push(Effect::Send(RxCmd::UpdateMode(self.mode.clone())));
            state.jobs.update = true;
            effects.push(Effect::Send(RxCmd::Refresh));
            assert(effects@ =~= seq![
                Effect::Send(RxCmd::UpdateMode(self.mode)),
                Effect::Send(RxCmd::Refresh),
            ]);
        }
        effects
    }

    /// Whether `after`, `state_after` and `effects` are what going from one branch to
    /// all of them, or back, leaves.
    pub open spec fn toggled_refs(
        self,
        state: State,
        after: Main,
        state_after: State,
        effects: Seq<Effect>,
    ) -> bool {
        match self.mode {
            RunMode::Pipelines(info) => {
                let (shown, saved) = if info.ref_name is Some {
                    (None, info.ref_name)
                } else if self.ref_save is Some {
                    (self.ref_save, None)
                } else {
                    (info.ref_name, self.ref_save)
                };
                let mode = RunMode::Pipelines(PipelinesMode { ref_name: shown, ..info });
                &&& after == Main { mode, ref_save: saved, ..self }
                &&& state_after == State {
                    pipelines: Updatable { data: None, ..state.pipelines },
                    ..state
                }
                &&& effects == seq![Effect::Send(RxCmd::UpdateMode(mode))]
            },
            _ => after == self && state_after == state && effects == Seq::<Effect>::empty(),
        }
    }

    /// Goes from one branch to all of them, or back.
    pub fn toggle_all_refs(&mut self, state: &mut State) -> (effects: Vec<Effect>)
        ensures
            old(self).toggled_refs(*old(state), *final(self), *final(state), effects@),
    {
        let mut effects: Vec<Effect> = Vec::new();
        if let RunMode::Pipelines(info) = &mut self.mode {
            if info.ref_name.is_some() {
                self.ref_save = info.ref_name.take();
            } else if self.ref_save.is_some() {
                info.ref_name = self.ref_save.take();
            }
            state.pipelines.data = None;
            effects.push(Effect::Send(RxCmd::UpdateMode(self.mode.clone())));
        }
        effects
    }

    /// The monitor that asks whether a request is meant.
    pub open spec fn asking(self, request: Request) -> Main {
        Main { mode: RunMode::Modal(request, Box::new(self.mode)), ..self }
    }

    /// Asks whether a request is meant.
    pub fn seek_request(&mut self, request: Request)
        ensures
            *final(self) == old(self).asking(request),
    {
        self.mode = RunMode::Modal(request, Box::new(self.mode.clone()));
    }

    /// Whether `after` and `effects` are what asking to delete a pipeline leaves.
    pub open spec fn asked_to_delete(self, after: Main, effects: Seq<Effect>) -> bool {
        match (self.mode, self.chosen_pipeline()) {
            (RunMode::Jobs(info), _) => {
                let request = Request::DeletePipeline(info.pipeline_id);
                match self.prev_mode {
                    Some(mode) => {
                        &&& after == (Main {
                            mode,
                            prev_mode: None,
                            first_load: true,
                            ..self
                        }).asking(request)
                        &&& effects == seq![Effect::Send(RxCmd::UpdateMode(mode))]
                    },
                    None => {
                        &&& after == self.asking(request)
                        &&& effects == Seq::<Effect>::empty()
                    },
                }
            },
            (RunMode::Pipelines(_), Some(pipeline)) => {
                &&& after == self.asking(Request::DeletePipeline(pipeline.id))
                &&& effects == Seq::<Effect>::empty()
            },
            _ => after == self && effects == Seq::<Effect>::empty(),
        }
    }

    /// Asks to delete the pipeline that is shown or selected. From its jobs, what was
    /// shown before them is shown again first, if something was.
    pub fn delete_pipeline(&mut self) -> (effects: Vec<Effect>)
        ensures
            old(self).asked_to_delete(*final(self), effects@),
    {
        match &self.mode {
            RunMode::Jobs(info) => {
                let pipeline_id = info.pipeline_id;
                let effects = self.go_to_previous_mode();
                self.seek_request(Request::DeletePipeline(pipeline_id));
                effects
            },
            RunMode::Pipelines(_) => {
                if let Some(selected) = place_in(&self.selected_pipeline, self.pipelines.len()) {
                    let pipeline_id = self.pipelines[selected].id;
                    self.seek_request(Request::DeletePipeline(pipeline_id));
                }
                Vec::new()
            },
            _ => Vec::new(),
        }
    }

    /// The monitor after it was asked to cancel a pipeline.
    pub open spec fn asked_to_cancel(self) -> Main {
        match (self.mode, self.chosen_job(), self.chosen_pipeline()) {
            (RunMode::Jobs(_), Some(job), _) => self.asking(
                Request::CancelPipeline(job.pipeline.id),
            ),
            (RunMode::Pipelines(_), _, Some(pipeline)) => self.asking(
                Request::CancelPipeline(pipeline.id),
            ),
            _ => self,
        }
    }

    /// Asks to cancel the pipeline that is selected, or that has the selected job.
    pub fn cancel_pipeline(&mut self)
        ensures
            *final(self) == old(self).asked_to_cancel(),
    {
        match &self.mode {
            RunMode::Jobs(_) => {
                if let Some(selected) = place_in(&self.selected_job, self.jobs.len()) {
                    let pipeline_id = self.jobs[selected].pipeline.id;
                    self.seek_request(Request::CancelPipeline(pipeline_id));
                }
            },
            RunMode::Pipelines(_) => {
                if let Some(selected) = place_in(&self.selected_pipeline, self.pipelines.len()) {
                    let pipeline_id = self.pipelines[selected].id;
                    self.seek_request(Request::CancelPipeline(pipeline_id));
                }
            },
            _ => {},
        }
    }

    /// Whether `after` and `effects` are what asking for a retry leaves. The command
    /// that goes with the retry of a job is run at once.
    pub open spec fn asked_to_retry(self, after: Main, effects: Seq<Effect>) -> bool {
        match (self.mode, self.chosen_job(), self.chosen_pipeline()) {
            (RunMode::Jobs(info), Some(job), _) => {
                &&& after == self.asking(Request::RetryJob(job.id))
                &&& effects == seq![Effect::RetryHook(job, info.pipeline_id)]
            },
            (RunMode::Pipelines(_), _, Some(pipeline)) => {
                &&& after == self.asking(Request::RetryPipeline(pipeline.id))
                &&& effects == Seq::<Effect>::empty()
            },
            _ => after == self && effects == Seq::<Effect>::empty(),
        }
    }

    /// Asks to retry the selected job or pipeline.
    pub fn retry(&mut self) -> (effects: Vec<Effect>)
        ensures
            old(self).asked_to_retry(*final(self), effects@),
    {
        let mut effects: Vec<Effect> = Vec::new();
        match &self.mode {
            RunMode::Jobs(info) => {
                if let Some(selected) = place_in(&self.selected_job, self.jobs.len()) {
                    let job = self.jobs[selected].clone();
                    let id = job.id;
                    effects.push(Effect::RetryHook(job, info.pipeline_id));
                    self.seek_request(Request::RetryJob(id));
                }
            },
            RunMode::Pipelines(_) => {
                if let Some(selected) = place_in(&self.selected_pipeline, self.pipelines.len()) {
                    let pipeline_id = self.pipelines[selected].id;
                    self.seek_request(Request::RetryPipeline(pipeline_id));
                }
            },
            _ => {},
        }
        effects
    }

    /// The monitor after it was asked to start a manual job.
    pub open spec fn asked_to_play(self) -> Main {
        match (self.mode, self.chosen_job()) {
            (RunMode::Jobs(_), Some(job)) => self.asking(Request::PlayJob(job.id)),
            _ => self,
        }
    }

    /// Asks to start the selected job.
    pub fn play(&mut self)
        ensures
            *final(self) == old(self).asked_to_play(),
    {
        if let RunMode::Jobs(_) = &self.mode {
            if let Some(selected) = place_in(&self.selected_job, self.jobs.len()) {
                let id = self.jobs[selected].id;
                self.seek_request(Request::PlayJob(id));
            }
        }
    }

    /// Whether `after`, `state_after` and `effects` are what a confirmation leaves: the
    /// request that was asked about is queued, and what was shown under the question
    /// is shown again.
    pub open spec fn confirmed(
        self,
        state: State,
        after: Main,
        state_after: State,
        effects: Seq<Effect>,
    ) -> bool {
        match self.mode {
            RunMode::Modal(request, under) => {
                &&& after == Main { mode: *under, ..self }
                &&& state_after.request_queue@ == seq![request] + state.request_queue@
                &&& state_after == State { request_queue: state_after.request_queue, ..state }
                &&& effects == seq![Effect::Send(RxCmd::Refresh)]
            },
            _ => after == self && state_after == state && effects == Seq::<Effect>::empty(),
        }
    }

    /// Queues a request.
    pub fn perform_request(state: &mut State, request: Request) -> (effects: Vec<Effect>)
        ensures
            final(state).request_queue@ == seq![request] + old(state).request_queue@,
            *final(state) == (State {
                request_queue: final(state).request_queue,
                ..*old(state)
            }),
            effects@ == seq![Effect::Send(RxCmd::Refresh)],
    {
        state.request_queue.push_front(request);
        let mut effects: Vec<Effect> = Vec::new();
        effects.push(Effect::Send(RxCmd::Refresh));
        effects
    }

    /// Confirms the request that was asked about.
    pub fn confirm_action(&mut self, state: &mut State) -> (effects: Vec<Effect>)
        ensures
            old(self).confirmed(*old(state), *final(self), *final(state), effects@),
    {
        match &self.mode {
            RunMode::Modal(request, under) => {
                let request = *request;
                let under = (&**under).clone();
                self.mode = under;
                Main::perform_request(state, request)
            },
            _ => Vec::new(),
        }
    }

    /// Whether `after` is what hiding the selected pipeline leaves. If it was the last
    /// one that is shown, the one above it is selected.
    pub open spec fn hid_pipeline(self, after: Main) -> bool {
        match (self.mode, self.chosen_pipeline()) {
            (RunMode::Pipelines(_), Some(pipeline)) => {
                let selected = self.selected_pipeline.selected->0;
                &&& after.ignored_pipeline_ids@ == self.ignored_pipeline_ids@.insert(pipeline.id)
                &&& after == Main {
                    ignored_pipeline_ids: after.ignored_pipeline_ids,
                    selected_pipeline: if selected > 0 && selected + 1 == self.pipelines@.len() {
                        self.selected_pipeline.moved(Some((selected - 1) as usize))
                    } else {
                        self.selected_pipeline
                    },
                    ..self
                }
            },
            _ => after == self,
        }
    }

    /// Hides the selected pipeline.
    pub fn ignore_pipeline(&mut self)
        ensures
            old(self).hid_pipeline(*final(self)),
    {
        if let RunMode::Pipelines(_) = &self.mode {
            if let Some(selected) = place_in(&self.selected_pipeline, self.pipelines.len()) {
                self.ignored_pipeline_ids.insert(self.pipelines[selected].id);
                if selected > 0 && selected + 1 == self.pipelines.len() {
                    self.selected_pipeline.select(Some(selected - 1));
                }
            }
        }
    }

    /// Whether an action can be carried out on a screen of `rows` rows: no step leads
    /// to a place that a number of the machine cannot hold.
    pub open spec fn accepts(self, state: State, action: Action, rows: u16) -> bool {
        match action {
            Action::Down => self.down_fits(state, 1),
            Action::PageDown => self.down_fits(state, page(rows) as nat),
            _ => true,
        }
    }

    /// Tells whether an action can be carried out on a screen of `rows` rows.
    pub fn can_act(&self, state: &State, action: Action, rows: u16) -> (can: bool)
        ensures
            can == self.accepts(*state, action, rows),
    {
        let n: u16 = match action {
            Action::Down => 1,
            Action::PageDown => page_len(rows),
            _ => {
                return true;
            },
        };
        match &self.mode {
            RunMode::Jobs(_) => state.jobs.can_page_down(
                &self.selected_job,
                Some(self.jobs.len()),
                n,
            ),
            RunMode::Pipelines(_) => state.pipelines.can_page_down(
                &self.selected_pipeline,
                Some(self.pipelines.len()),
                n,
            ),
            RunMode::PipeDiff(_) => state.pipediff.can_page_down(
                &self.selected_pipediff,
                Some(self.pipediffs.len()),
                n,
            ),
            _ => true,
        }
    }

    /// The monitor after pipelines to compare were picked, or given up: at first the
    /// two newest of them are compared.
    pub open spec fn toggled_diff(self) -> Main {
        Main {
            pipelines_select_for_diff: if self.pipelines_select_for_diff is Some {
                None
            } else if self.pipelines@.len() >= 2 {
                Some((Some(self.pipelines@[1].id), Some(self.pipelines@[0].id)))
            } else {
                self.pipelines_select_for_diff
            },
            ..self
        }
    }

    /// Whether `after`, `state_after` and `effects` are what an action leaves, on a
    /// screen of `rows` rows.
    pub open spec fn acted(
        self,
        state: State,
        action: Action,
        rows: u16,
        after: Main,
        state_after: State,
        effects: Seq<Effect>,
    ) -> bool {
        let same_state = state_after == state;
        let no_effects = effects == Seq::<Effect>::empty();
        match action {
            Action::Help => {
                &&& after == Main { prev_mode: Some(self.mode), mode: RunMode::Help, ..self }
                &&& same_state && no_effects
            },
            Action::Quit => after == (Main { leave: true, ..self }) && same_state && no_effects,
            Action::QuitOrGoBack => match (self.mode, self.prev_mode) {
                (RunMode::Modal(_, under), _) => {
                    &&& after == Main { mode: *under, ..self }
                    &&& same_state && no_effects
                },
                (_, Some(_)) => self.went_back(after, effects) && same_state,
                (_, None) => after == (Main { leave: true, ..self }) && same_state && no_effects,
            },
            Action::GoBack => match self.mode {
                RunMode::Modal(_, under) => {
                    &&& after == Main { mode: *under, ..self }
                    &&& same_state && no_effects
                },
                _ => self.went_back(after, effects) && same_state,
            },
            Action::Clear => {
                &&& after.ignored_pipeline_ids@ == Set::<u64>::empty()
                &&& after == Main { ignored_pipeline_ids: after.ignored_pipeline_ids, ..self }
                &&& same_state && no_effects
            },
            Action::Diff => after == self.toggled_diff() && same_state && no_effects,
            Action::RefreshToggle => {
                &&& after == Main { auto_refresh: !self.auto_refresh, ..self }
                &&& same_state && no_effects
            },
            Action::HideUnchanged => {
                &&& after == Main {
                    pipediff_hide_unchanged: !self.pipediff_hide_unchanged,
                    ..self
                }
                &&& same_state && no_effects
            },
            Action::Up => {
                &&& after == self.moved_up(state, 1) && same_state
                &&& effects == self.help_steps(Effect::HelpUp, 1)
            },
            Action::Down => {
                &&& after == self.moved_down(state, 1) && same_state
                &&& effects == self.help_steps(Effect::HelpDown, 1)
            },
            Action::PageUp => {
                &&& after == self.moved_up(state, page(rows) as nat) && same_state
                &&& effects == self.help_steps(Effect::HelpUp, page(rows) as nat)
            },
            Action::PageDown => {
                &&& after == self.moved_down(state, page(rows) as nat) && same_state
                &&& effects == self.help_steps(Effect::HelpDown, page(rows) as nat)
            },
            Action::Home => after == self.at_top(state) && same_state && no_effects,
            Action::End => after == self.at_end(state) && same_state && no_effects,
            Action::Delete => self.hid_pipeline(after) && same_state && no_effects,
            Action::SetFromDiff => {
                &&& after == self.with_diff_end(true)
                &&& same_state && no_effects
            },
            Action::SetToDiff => {
                &&& after == self.with_diff_end(false)
                &&& same_state && no_effects
            },
            Action::Enter => self.entered(state, after, state_after, effects),
            Action::OpenInBrowser => after == self && same_state && effects == self.pages(),
            Action::OpenPreviousInBrowser => {
                &&& after == self && same_state
                &&& effects == self.previous_job()
            },
            Action::GitLog => after == self && same_state && effects == self.commit_log(),
            Action::ToggleUsernameResolve => self.toggled_usernames(after, effects) && same_state,
            Action::ToggleAllRefs => self.toggled_refs(state, after, state_after, effects),
            Action::ToggleManualJobs => self.toggled_manual(state, after, state_after, effects),
            Action::DeletePipeline => self.asked_to_delete(after, effects) && same_state,
            Action::CancelPipeline => after == self.asked_to_cancel() && same_state && no_effects,
            Action::Retry => self.asked_to_retry(after, effects) && same_state,
            Action::PlayJob => after == self.asked_to_play() && same_state && no_effects,
            Action::ConfirmAction => self.confirmed(state, after, state_after, effects),
        }
    }

    /// Carries out an action, on a screen of `rows` rows.
    pub fn on_action(&mut self, state: &mut State, action: Action, rows: u16) -> (effects: Vec<
        Effect,
    >)
        requires
            old(self).accepts(*old(state), action, rows),
        ensures
            old(self).acted(*old(state), action, rows, *final(self), *final(state), effects@),
    {
        match action {
            Action::Help => {
                self.prev_mode = Some(self.mode.clone());
                self.mode = RunMode::Help;
                Vec::new()
            },
            Action::Quit => {
                self.leave = true;
                Vec::new()
            },
            Action::QuitOrGoBack => {
                if self.close_modal() {
                    Vec::new()
                } else if self.prev_mode.is_some() {
                    self.go_to_previous_mode()
                } else {
                    self.leave = true;
                    Vec::new()
                }
            },
            Action::GoBack => {
                if self.close_modal() {
                    Vec::new()
                } else {
                    self.go_to_previous_mode()
                }
            },
            Action::Clear => {
                self.ignored_pipeline_ids.clear();
                Vec::new()
            },
            Action::Diff => {
                if self.pipelines_select_for_diff.is_some() {
                    self.pipelines_select_for_diff = None;
                } else if self.pipelines.len() >= 2 {
                    let from = self.pipelines[1].id;
                    let to = self.pipelines[0].id;
                    self.pipelines_select_for_diff = Some((Some(from), Some(to)));
                }
                Vec::new()
            },
            Action::RefreshToggle => {
                self.auto_refresh = !self.auto_refresh;
                Vec::new()
            },
            Action::HideUnchanged => {
                self.pipediff_hide_unchanged = !self.pipediff_hide_unchanged;
                Vec::new()
            },
            Action::Up => self.on_up(state, 1),
            Action::Down => self.on_down(state, 1),
            Action::PageUp => self.on_up(state, page_len(rows)),
            Action::PageDown => self.on_down(state, page_len(rows)),
            Action::Home => {
                self.goto_top_of_list(state);
                Vec::new()
            },
            Action::End => {
                self.goto_end_of_list(state);
                Vec::new()
            },
            Action::Delete => {
                self.ignore_pipeline();
                Vec::new()
            },
            Action::SetFromDiff => {
                self.on_set_pipediff_range(true);
                Vec::new()
            },
            Action::SetToDiff => {
                self.on_set_pipediff_range(false);
                Vec::new()
            },
            Action::Enter => self.on_enter(state),
            Action::OpenInBrowser => self.open_browser(),
            Action::OpenPreviousInBrowser => self.open_previous(),
            Action::GitLog => self.open_git_log(),
            Action::ToggleUsernameResolve => self.toggle_username_resolve(),
            Action::ToggleAllRefs => self.toggle_all_refs(state),
            Action::ToggleManualJobs => self.toggle_manual_jobs(state),
            Action::DeletePipeline => self.delete_pipeline(),
            Action::CancelPipeline => {
                self.cancel_pipeline();
                Vec::new()
            },
            Action::Retry => self.retry(),
            Action::PlayJob => {
                self.play();
                Vec::new()
            },
            Action::ConfirmAction => self.confirm_action(state),
        }
    }

    /// Gives up the request that was asked about. Tells whether there was one.
    fn close_modal(&mut self) -> (closed: bool)
        ensures
            match old(self).mode {
                RunMode::Modal(_, under) => closed && *final(self) == (Main {
                    mode: *under,
                    ..*old(self)
                }),
                _ => !closed && *final(self) == *old(self),
            },
    {
        match &self.mode {
            RunMode::Modal(_, under) => {
                let under = (&**under).clone();
                self.mode = under;
                true
            },
            _ => false,
        }
    }
}

/// How many steps a page has on a screen of `rows` rows.
pub open spec fn page(rows: u16) -> u16 {
    if rows >= 2 {
        (rows - 2) as u16
    } else {
        0
    }
}

fn page_len(rows: u16) -> (n: u16)
    ensures
        n == page(rows),
{
    rows.saturating_sub(2)
}

} // verus!
