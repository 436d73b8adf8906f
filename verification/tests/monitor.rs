use glcim::config::{Config, ConfigHooks};
use glcim::diff::JobDiff;
use glcim::display::{Report, Screen};
use glcim::keys::Action;
use glcim::model::{Job, Pipeline, Request, User};
use glcim::modes::{JobsMode, PipeDiff, PipelinesMode, RunMode, RxCmd};
use glcim::monitor::{Effect, Main};
use glcim::refresh::{Output, Refresh};
use glcim::screen::Color;
use glcim::state::State;
use glcim::timestamp::Timestamp;
use glcim::updatable::Updatable;
use glcim::worker::{Thread, ThreadAction};
use std::time::Instant;

fn config() -> Config {
    Config {
        api_key: "key".to_owned(),
        hostname: "h".to_owned(),
        project: "p".to_owned(),
        local_repo: None,
        cookie: None,
        cert_insecure: false,
        refresh: 10,
        hooks: ConfigHooks {
            open_job_command: None,
            open_job_terminal: false,
            retry_job_command: None,
            remote_ref_command: None,
            open_url_program: None,
        },
    }
}

fn pipeline(id: u64) -> Pipeline {
    let at = Timestamp::new(1_600_000_000, 0, 0).unwrap();
    Pipeline {
        id,
        status: "success".to_owned(),
        ref_name: "main".to_owned(),
        sha: "0123456789abcdef".to_owned(),
        web_url: "https://h/p/pipelines/1".to_owned(),
        created_at: at,
        updated_at: at,
    }
}

fn job(id: u64, name: &str, status: &str) -> Job {
    Job { id, name: name.to_owned(), status: status.to_owned(), pipeline: pipeline(3) }
}

fn pipelines_mode() -> PipelinesMode {
    PipelinesMode {
        all_users: false,
        custom_username: None,
        nr_pipelines: 50,
        resolve_usernames: false,
        ref_name: Some("main".to_owned()),
        commithash: None,
    }
}

fn monitor(mode: RunMode) -> Main {
    Main::new(
        config(),
        User { username: "me".to_owned() },
        mode,
        false,
        false,
        false,
        false,
    )
}

fn pipelines_monitor() -> (Main, State) {
    let mut main = monitor(RunMode::Pipelines(pipelines_mode()));
    let mut state = State::new();
    let list = vec![pipeline(9), pipeline(8), pipeline(7)];
    state.pipelines.data = Some((Instant::now(), list));
    main.draw(&state);
    main.draw(&state);
    (main, state)
}

fn jobs_monitor() -> (Main, State) {
    let mut main = monitor(RunMode::Jobs(JobsMode { pipeline_id: 4, manual_jobs: false }));
    let mut state = State::new();
    let list = vec![job(1, "build", "success"), job(2, "test", "failed")];
    state.jobs.data = Some((Instant::now(), list));
    main.draw(&state);
    (main, state)
}

fn diff_monitor() -> (Main, State) {
    let mut main = monitor(RunMode::PipeDiff(PipeDiff { from: 8, to: 9 }));
    let mut state = State::new();
    let both = |name: &str, a: &str, b: &str| {
        JobDiff::Both(
            (name.to_owned(), job(1, name, a)),
            (name.to_owned(), job(2, name, b)),
        )
    };
    let list = vec![
        both("build", "success", "success"),
        JobDiff::Left(("old".to_owned(), job(5, "old", "failed"))),
        both("test", "success", "failed"),
    ];
    state.pipediff.data = Some((Instant::now(), list));
    main.draw(&state);
    (main, state)
}

fn shown_ids(main: &Main) -> Vec<u64> {
    main.pipelines.iter().map(|p| p.id).collect()
}

fn act(main: &mut Main, state: &mut State, action: Action) -> Vec<Effect> {
    assert!(main.can_act(state, action, 24));
    main.on_action(state, action, 24)
}

#[test]
fn monitor_at_its_start() {
    let main = monitor(RunMode::Help);
    assert!(main.prev_mode.is_none() && !main.leave && main.auto_refresh && main.first_load);
    assert!(main.pipediff_hide_unchanged && main.uses_terminal());
    let user = User { username: "me".to_owned() };
    let main = Main::new(config(), user, RunMode::Nothing, false, false, true, true);
    assert!(main.non_interactive && main.json_output && !main.auto_refresh);
    assert!(!main.uses_terminal());
}

#[test]
fn a_question_is_confirmed() {
    let (mut main, mut state) = pipelines_monitor();
    state.request_queue.push_back(Request::PlayJob(1));
    assert!(act(&mut main, &mut state, Action::DeletePipeline).is_empty());
    assert!(matches!(main.mode, RunMode::Modal(Request::DeletePipeline(9), _)));
    assert_eq!(state.request_queue.len(), 1);
    let effects = act(&mut main, &mut state, Action::ConfirmAction);
    assert!(matches!(&effects[..], [Effect::Send(RxCmd::Refresh)]));
    assert!(matches!(main.mode, RunMode::Pipelines(_)));
    assert_eq!(state.request_queue, [Request::DeletePipeline(9), Request::PlayJob(1)]);
}

#[test]
fn a_confirmed_request_is_the_next_one() {
    let (mut main, mut state) = pipelines_monitor();
    act(&mut main, &mut state, Action::Retry);
    act(&mut main, &mut state, Action::ConfirmAction);
    let mut thread = Thread::new(config(), User { username: "me".to_owned() }, main.mode.clone());
    let step = thread.on_command(&mut state, Some(RxCmd::Refresh));
    assert!(matches!(step.action, ThreadAction::Perform(Request::RetryPipeline(9))));
}

#[test]
fn a_question_is_cancelled() {
    for action in [Action::GoBack, Action::QuitOrGoBack] {
        let (mut main, mut state) = pipelines_monitor();
        act(&mut main, &mut state, Action::CancelPipeline);
        assert!(matches!(main.mode, RunMode::Modal(Request::CancelPipeline(9), _)));
        assert!(act(&mut main, &mut state, action).is_empty());
        assert!(matches!(main.mode, RunMode::Pipelines(_)));
        assert!(!main.leave && state.request_queue.is_empty());
    }
}

#[test]
fn confirming_nothing_requests_nothing() {
    let (mut main, mut state) = pipelines_monitor();
    assert!(act(&mut main, &mut state, Action::ConfirmAction).is_empty());
    assert!(state.request_queue.is_empty());
}

#[test]
fn questions_about_jobs() {
    let (mut main, mut state) = jobs_monitor();
    act(&mut main, &mut state, Action::Down);
    let effects = act(&mut main, &mut state, Action::Retry);
    assert!(matches!(&effects[..], [Effect::RetryHook(job, 4)] if job.id == 2));
    assert!(matches!(main.mode, RunMode::Modal(Request::RetryJob(2), _)));
    act(&mut main, &mut state, Action::GoBack);
    act(&mut main, &mut state, Action::PlayJob);
    assert!(matches!(main.mode, RunMode::Modal(Request::PlayJob(2), _)));
    act(&mut main, &mut state, Action::GoBack);
    act(&mut main, &mut state, Action::CancelPipeline);
    assert!(matches!(main.mode, RunMode::Modal(Request::CancelPipeline(3), _)));
    act(&mut main, &mut state, Action::GoBack);
    act(&mut main, &mut state, Action::DeletePipeline);
    assert!(matches!(main.mode, RunMode::Modal(Request::DeletePipeline(4), _)));
}

#[test]
fn deleting_from_the_jobs_goes_back_and_asks() {
    let (mut main, mut state) = pipelines_monitor();
    act(&mut main, &mut state, Action::Enter);
    let effects = act(&mut main, &mut state, Action::DeletePipeline);
    assert!(matches!(&effects[..], [Effect::Send(RxCmd::UpdateMode(RunMode::Pipelines(_)))]));
    assert!(main.prev_mode.is_none() && main.first_load);
    assert!(matches!(
        &main.mode,
        RunMode::Modal(Request::DeletePipeline(9), under)
            if matches!(**under, RunMode::Pipelines(_))
    ));
    act(&mut main, &mut state, Action::ConfirmAction);
    assert_eq!(state.request_queue, [Request::DeletePipeline(9)]);
    assert!(matches!(main.mode, RunMode::Pipelines(_)));
}

#[test]
fn leaving() {
    let (mut main, mut state) = pipelines_monitor();
    act(&mut main, &mut state, Action::Help);
    act(&mut main, &mut state, Action::QuitOrGoBack);
    assert!(!main.leave && matches!(main.mode, RunMode::Pipelines(_)));
    act(&mut main, &mut state, Action::GoBack);
    assert!(!main.leave);
    act(&mut main, &mut state, Action::QuitOrGoBack);
    assert!(main.leave);
    let (mut main, mut state) = jobs_monitor();
    act(&mut main, &mut state, Action::Quit);
    assert!(main.leave);
}

#[test]
fn entering_a_pipeline_fetches_its_jobs() {
    let (mut main, mut state) = pipelines_monitor();
    act(&mut main, &mut state, Action::Down);
    let effects = act(&mut main, &mut state, Action::Enter);
    let wanted = JobsMode { pipeline_id: 8, manual_jobs: false };
    assert!(
        matches!(&effects[..], [Effect::Send(RxCmd::UpdateMode(RunMode::Jobs(m)))] if *m == wanted)
    );
    assert!(state.jobs.data.is_none() && main.first_load);
    assert_eq!(main.refresh(&mut state), Refresh { stop: false, send: true });
    assert!(state.jobs.update && !main.first_load);
    let mut thread = Thread::new(config(), User { username: "me".to_owned() }, main.mode.clone());
    let step = thread.on_command(&mut state, Some(RxCmd::Refresh));
    assert!(matches!(step.action, ThreadAction::FetchJobs(8, _)));
    let effects = act(&mut main, &mut state, Action::GoBack);
    assert!(matches!(&effects[..], [Effect::Send(RxCmd::UpdateMode(RunMode::Pipelines(_)))]));
    assert!(main.first_load && main.prev_mode.is_none());
}

#[test]
fn comparing_two_pipelines() {
    let (mut main, mut state) = pipelines_monitor();
    act(&mut main, &mut state, Action::Diff);
    assert_eq!(main.pipelines_select_for_diff, Some((Some(8), Some(9))));
    act(&mut main, &mut state, Action::SetFromDiff);
    assert_eq!(main.pipelines_select_for_diff, Some((Some(8), Some(9))));
    act(&mut main, &mut state, Action::End);
    act(&mut main, &mut state, Action::SetFromDiff);
    assert_eq!(main.pipelines_select_for_diff, Some((Some(7), Some(9))));
    act(&mut main, &mut state, Action::SetToDiff);
    assert_eq!(main.pipelines_select_for_diff, Some((Some(7), Some(9))));
    act(&mut main, &mut state, Action::Up);
    act(&mut main, &mut state, Action::SetToDiff);
    assert_eq!(main.pipelines_select_for_diff, Some((Some(7), Some(8))));
    let effects = act(&mut main, &mut state, Action::Enter);
    let wanted = PipeDiff { from: 7, to: 8 };
    assert!(matches!(
        &effects[..],
        [Effect::Send(RxCmd::UpdateMode(RunMode::PipeDiff(m)))] if *m == wanted
    ));
    main.refresh(&mut state);
    let mut thread = Thread::new(config(), User { username: "me".to_owned() }, main.mode.clone());
    let step = thread.on_command(&mut state, Some(RxCmd::Refresh));
    assert!(matches!(step.action, ThreadAction::FetchDiff(m) if m == wanted));
    act(&mut main, &mut state, Action::Diff);
    assert_eq!(main.pipelines_select_for_diff, None);
}

#[test]
fn one_pipeline_is_not_compared() {
    let (mut main, mut state) = pipelines_monitor();
    state.pipelines.data = Some((Instant::now(), vec![pipeline(9)]));
    main.draw(&state);
    act(&mut main, &mut state, Action::Diff);
    assert_eq!(main.pipelines_select_for_diff, None);
}

#[test]
fn opening_jobs_and_pages() {
    let (mut main, mut state) = pipelines_monitor();
    let effects = act(&mut main, &mut state, Action::OpenInBrowser);
    assert!(matches!(&effects[..], [Effect::OpenPipelinePage(9)]));
    assert!(act(&mut main, &mut state, Action::GitLog).is_empty());
    main.config.local_repo = Some("/src".to_owned());
    let effects = act(&mut main, &mut state, Action::GitLog);
    assert!(matches!(&effects[..], [Effect::GitLog(sha)] if sha == "0123456789abcdef"));
    let (mut main, mut state) = jobs_monitor();
    let effects = act(&mut main, &mut state, Action::OpenInBrowser);
    assert!(matches!(&effects[..], [Effect::OpenJobPage(1)]));
    let effects = act(&mut main, &mut state, Action::Enter);
    assert!(matches!(&effects[..], [Effect::EnterJob(job, 4)] if job.name == "build"));
    assert!(act(&mut main, &mut state, Action::OpenPreviousInBrowser).is_empty());
    let (mut main, mut state) = diff_monitor();
    assert!(act(&mut main, &mut state, Action::Enter).is_empty());
    act(&mut main, &mut state, Action::Up);
    let effects = act(&mut main, &mut state, Action::Enter);
    assert!(matches!(&effects[..], [Effect::EnterJob(job, 9)] if job.id == 2));
    let effects = act(&mut main, &mut state, Action::OpenPreviousInBrowser);
    assert!(matches!(&effects[..], [Effect::OpenJobPage(1)]));
    let effects = act(&mut main, &mut state, Action::OpenInBrowser);
    assert!(matches!(&effects[..], [Effect::OpenJobPage(2)]));
}

#[test]
fn toggles_undo_themselves() {
    let (mut main, mut state) = pipelines_monitor();
    act(&mut main, &mut state, Action::RefreshToggle);
    assert!(!main.auto_refresh);
    act(&mut main, &mut state, Action::RefreshToggle);
    assert!(main.auto_refresh);
    act(&mut main, &mut state, Action::HideUnchanged);
    assert!(!main.pipediff_hide_unchanged);
    let effects = act(&mut main, &mut state, Action::ToggleUsernameResolve);
    assert!(matches!(
        &effects[..],
        [Effect::Send(RxCmd::UpdateMode(RunMode::Pipelines(m)))] if m.resolve_usernames
    ));
    act(&mut main, &mut state, Action::ToggleUsernameResolve);
    assert!(matches!(&main.mode, RunMode::Pipelines(m) if !m.resolve_usernames));
    let (mut main, mut state) = jobs_monitor();
    let effects = act(&mut main, &mut state, Action::ToggleManualJobs);
    assert!(matches!(
        &effects[..],
        [Effect::Send(RxCmd::UpdateMode(RunMode::Jobs(m))), Effect::Send(RxCmd::Refresh)]
            if m.manual_jobs
    ));
    assert!(state.jobs.update);
    act(&mut main, &mut state, Action::ToggleManualJobs);
    assert!(matches!(&main.mode, RunMode::Jobs(m) if !m.manual_jobs));
}

#[test]
fn all_branches_and_back() {
    let (mut main, mut state) = pipelines_monitor();
    act(&mut main, &mut state, Action::ToggleAllRefs);
    assert!(matches!(&main.mode, RunMode::Pipelines(m) if m.ref_name.is_none()));
    assert_eq!(main.ref_save, Some("main".to_owned()));
    assert!(state.pipelines.data.is_none());
    act(&mut main, &mut state, Action::ToggleAllRefs);
    assert!(
        matches!(&main.mode, RunMode::Pipelines(m) if m.ref_name == Some("main".to_owned()))
    );
    assert_eq!(main.ref_save, None);
}

#[test]
fn hiding_and_clearing() {
    let (mut main, mut state) = pipelines_monitor();
    assert_eq!(shown_ids(&main), vec![9, 8, 7]);
    act(&mut main, &mut state, Action::Down);
    act(&mut main, &mut state, Action::Delete);
    main.draw(&state);
    assert_eq!(shown_ids(&main), vec![9, 7]);
    assert_eq!(main.selected_pipeline.selected, Some(1));
    act(&mut main, &mut state, Action::Delete);
    assert_eq!(main.selected_pipeline.selected, Some(0));
    main.draw(&state);
    assert_eq!(shown_ids(&main), vec![9]);
    act(&mut main, &mut state, Action::Clear);
    main.draw(&state);
    assert_eq!(shown_ids(&main), vec![9, 8, 7]);
}

#[test]
fn moving_in_the_list() {
    let (mut main, mut state) = jobs_monitor();
    assert_eq!(main.selected_job.selected, Some(0));
    act(&mut main, &mut state, Action::PageDown);
    assert_eq!(main.selected_job.selected, Some(1));
    act(&mut main, &mut state, Action::PageUp);
    assert_eq!(main.selected_job.selected, Some(0));
    act(&mut main, &mut state, Action::End);
    assert_eq!(main.selected_job.selected, Some(1));
    act(&mut main, &mut state, Action::Home);
    assert_eq!(main.selected_job.selected, Some(0));
    main.on_action(&mut state, Action::PageDown, 2);
    assert_eq!(main.selected_job.selected, Some(0));
    let mut main = monitor(RunMode::Help);
    let effects = main.on_action(&mut state, Action::PageDown, 5);
    assert!(matches!(&effects[..], [Effect::HelpDown, Effect::HelpDown, Effect::HelpDown]));
    let effects = main.on_action(&mut state, Action::Up, 5);
    assert!(matches!(&effects[..], [Effect::HelpUp]));
}

#[test]
fn jobs_are_drawn() {
    let (mut main, mut state) = jobs_monitor();
    state.response = Some((Instant::now(), "Job retry: success".to_owned()));
    act(&mut main, &mut state, Action::PlayJob);
    match main.draw(&state) {
        Screen::Jobs(table, Some(question)) => {
            assert_eq!(table.title, "Jobs");
            assert_eq!(table.header, vec!["ID", "Pipeline", "Status", "Name"]);
            assert_eq!(table.widths, vec![12, 12, 10, 40]);
            assert_eq!(
                table.status_line,
                "F1 for help | Auto-refresh: enabled| Job retry: success"
            );
            assert_eq!(table.rows.len(), 2);
            let cells: Vec<(&str, Color)> =
                table.rows[1].iter().map(|c| (c.text.as_str(), c.color)).collect();
            assert_eq!(
                cells,
                vec![
                    ("2", Color::Plain),
                    ("3", Color::Plain),
                    ("failed", Color::Red),
                    ("test", Color::Plain)
                ]
            );
            assert_eq!(question.title, "Confirmation");
            assert_eq!(question.subject, "Play of Job ");
            assert_eq!(question.id, "1");
            assert_eq!(question.prompt, "Press 'y' to confirm, 'n/'q'/ESC to cancel");
            assert_eq!((question.percent, question.side_percent, question.height), (60, 20, 7));
        }
        other => panic!("{:?}", other),
    }
    assert!(matches!(main.mode, RunMode::Modal(..)));
}

#[test]
fn statuses_have_colours() {
    for (status, color) in [
        ("failed", Color::Red),
        ("running", Color::Cyan),
        ("success", Color::Green),
        ("canceled", Color::Gray),
        ("pending", Color::White),
    ] {
        let cell = job(1, "j", status).styled_status();
        assert_eq!((cell.text.as_str(), cell.color), (status, color));
    }
}

#[test]
fn pipelines_are_drawn() {
    let (mut main, mut state) = pipelines_monitor();
    main.auto_refresh = false;
    match main.draw(&state) {
        Screen::Pipelines(table, None) => {
            assert_eq!(table.title, "Pipelines (user me, ref main)");
            assert_eq!(table.header, vec!["ID", "Status", "Ref", "GitHash", "Created at"]);
            assert_eq!(table.widths, vec![12, 10, 30, 12, 19]);
            assert_eq!(table.status_line, "F1 for help | Auto-refresh: disabled");
            let texts: Vec<&str> = table.rows[0].iter().map(|c| c.text.as_str()).collect();
            assert_eq!(
                texts,
                vec!["9", "success", "main", "0123456789abcdef", "2020-09-13 12:26:40 +00:00"]
            );
        }
        other => panic!("{:?}", other),
    }
    state.pipeline_trigger.insert(8, "you".to_owned());
    if let Some((_, list)) = &mut state.pipelines.data {
        list[2].ref_name = "r".repeat(33);
    }
    main.mode = RunMode::Pipelines(PipelinesMode {
        all_users: true,
        resolve_usernames: true,
        ref_name: None,
        ..pipelines_mode()
    });
    act(&mut main, &mut state, Action::Diff);
    match main.draw(&state) {
        Screen::Pipelines(table, None) => {
            assert_eq!(table.title, "Pipelines (all users)");
            assert_eq!(
                table.header,
                vec!["ID", "User", "Diff", "Status", "Ref", "GitHash", "Created at"]
            );
            assert_eq!(table.widths, vec![12, 15, 5, 10, 33, 12, 19]);
            let marks: Vec<(&str, &str)> = table
                .rows
                .iter()
                .map(|row| (row[1].text.as_str(), row[2].text.as_str()))
                .collect();
            assert_eq!(marks, vec![("...", "to"), ("you", "from"), ("...", " ")]);
        }
        other => panic!("{:?}", other),
    }
}

#[test]
fn titles_of_pipelines() {
    for (all_users, custom, branch, title) in [
        (false, None, None, "Pipelines (user me)"),
        (false, Some("you"), Some("dev"), "Pipelines (user you, ref dev)"),
        (true, None, Some("dev"), "Pipelines (all users, ref dev)"),
    ] {
        let mut main = monitor(RunMode::Pipelines(PipelinesMode {
            all_users,
            custom_username: custom.map(|s| s.to_owned()),
            ref_name: branch.map(|s| s.to_owned()),
            ..pipelines_mode()
        }));
        match main.draw(&State::new()) {
            Screen::Pipelines(table, None) => {
                assert_eq!(table.title, title);
                assert!(table.rows.is_empty());
            }
            other => panic!("{:?}", other),
        }
        assert_eq!(main.selected_pipeline.selected, None);
    }
}

#[test]
fn differences_are_drawn() {
    let (mut main, mut state) = diff_monitor();
    match main.draw(&state) {
        Screen::PipeDiff(table) => {
            assert_eq!(table.title, "Jobs: Pipe diff 8 -> 9");
            assert_eq!(
                table.header,
                vec!["Name", "Old ID", "New ID", "Old Status", "New Status"]
            );
            assert_eq!(table.widths, vec![40, 12, 12, 10, 10]);
            assert_eq!(table.rows.len(), 1);
            let texts: Vec<&str> = table.rows[0].iter().map(|c| c.text.as_str()).collect();
            assert_eq!(texts, vec!["test", "1", "2", "success", "failed"]);
        }
        other => panic!("{:?}", other),
    }
    act(&mut main, &mut state, Action::HideUnchanged);
    assert!(matches!(main.draw(&state), Screen::PipeDiff(table) if table.rows.len() == 2));
}

#[test]
fn help_and_nothing_are_drawn() {
    let state = State::new();
    assert!(matches!(monitor(RunMode::Help).draw(&state), Screen::Help));
    assert!(matches!(monitor(RunMode::Nothing).draw(&state), Screen::Blank));
}

#[test]
fn the_question_nearest_to_the_list_is_drawn() {
    let (mut main, state) = jobs_monitor();
    main.seek_request(Request::PlayJob(1));
    main.seek_request(Request::RetryJob(2));
    match main.draw(&state) {
        Screen::Jobs(_, Some(question)) => assert_eq!(question.subject, "Play of Job "),
        other => panic!("{:?}", other),
    }
}

#[test]
fn data_is_asked_for_when_it_is_old() {
    let (mut main, mut state) = jobs_monitor();
    main.first_load = false;
    let ms: u128 = 1_000_000;
    assert_eq!(
        main.refresh_after(&mut state, 9_999 * ms, 0),
        Refresh { stop: false, send: false }
    );
    assert_eq!(
        main.refresh_after(&mut state, 10_000 * ms, 0),
        Refresh { stop: false, send: true }
    );
    assert!(state.jobs.update);
    assert_eq!(
        main.refresh_after(&mut state, 20_000 * ms, 0),
        Refresh { stop: false, send: false }
    );
    let (mut main, mut state) = pipelines_monitor();
    assert!(!main.refresh_after(&mut state, 999 * ms, 0).send);
    assert!(main.refresh_after(&mut state, 1_000 * ms, 0).send);
    let (mut main, mut state) = diff_monitor();
    assert!(main.refresh_after(&mut state, 10_000 * ms, 0).send);
    assert!(state.pipediff.update);
}

#[test]
fn nothing_is_asked_for_without_auto_refresh() {
    let (mut main, mut state) = jobs_monitor();
    main.auto_refresh = false;
    assert!(main.refresh_after(&mut state, u128::MAX, 0).send);
    state.jobs.updated();
    assert!(!main.refresh_after(&mut state, u128::MAX, 0).send);
    assert!(!state.jobs.update);
}

#[test]
fn outcomes_are_shown_for_a_while() {
    let second: u128 = 1_000_000_000;
    for (refresh, lasts) in [(0, 1), (1, 1), (3, 1), (10, 5)] {
        let (mut main, mut state) = jobs_monitor();
        main.config.refresh = refresh;
        state.jobs.update = true;
        state.response = Some((Instant::now(), "done".to_owned()));
        assert!(!main.refresh_after(&mut state, 0, lasts * second).send);
        assert!(state.response.is_some());
        assert!(main.refresh_after(&mut state, 0, lasts * second + 1).send);
        assert!(state.response.is_none());
    }
}

#[test]
fn nothing_to_show_is_the_end() {
    let mut main = monitor(RunMode::Nothing);
    assert_eq!(main.refresh(&mut State::new()), Refresh { stop: true, send: false });
}

#[test]
fn refresh_times_that_do_not_fit() {
    let (mut main, _) = jobs_monitor();
    main.config.refresh = u64::MAX / 1000;
    assert!(main.can_refresh());
    main.config.refresh += 1;
    assert!(!main.can_refresh());
    main.mode = RunMode::Pipelines(pipelines_mode());
    assert!(main.can_refresh());
    main.config.refresh = u64::MAX / 100 + 1;
    assert!(!main.can_refresh());
    main.mode = RunMode::Help;
    assert!(main.can_refresh());
}

#[test]
fn pipelines_are_reported() {
    let (mut main, state) = pipelines_monitor();
    main.non_interactive = true;
    assert!(main.can_report(&state));
    match main.put(&state) {
        Output::Report(Report::Lines(lines)) => {
            assert_eq!(lines.len(), 3);
            let sha = "0123456789abcdef";
            assert_eq!(
                lines[0],
                format!("{:9}  {:10} {}  {}", 9, "success", &sha[..12], "https://h/p/pipelines/1")
            );
        }
        other => panic!("{:?}", other),
    }
    main.json_output = true;
    match main.put(&state) {
        Output::Report(Report::Json(list)) => {
            assert_eq!(list.iter().map(|p| p.id).collect::<Vec<u64>>(), vec![9, 8, 7]);
        }
        other => panic!("{:?}", other),
    }
    assert!(matches!(main.put(&State::new()), Output::Report(Report::Pending)));
}

#[test]
fn short_hashes_are_not_reported() {
    let (mut main, mut state) = pipelines_monitor();
    main.non_interactive = true;
    let set = |state: &mut State, sha: &str| {
        if let Some((_, list)) = &mut state.pipelines.data {
            list[1].sha = sha.to_owned();
        }
    };
    set(&mut state, "0123456789a");
    assert!(!main.can_report(&state));
    set(&mut state, "0123456789aé");
    assert!(!main.can_report(&state));
    set(&mut state, "0123456789é");
    assert!(main.can_report(&state));
    match main.check_report_non_interactive(&state) {
        Report::Lines(lines) => assert!(lines[1].contains(" 0123456789é  ")),
        other => panic!("{:?}", other),
    }
    set(&mut state, "");
    main.json_output = true;
    assert!(main.can_report(&state));
}

#[test]
fn differences_are_reported() {
    let (mut main, state) = diff_monitor();
    main.non_interactive = true;
    match main.put(&state) {
        Output::Report(Report::Lines(lines)) => {
            assert_eq!(lines, vec![format!("{:40}: success -> failed", "test")]);
        }
        other => panic!("{:?}", other),
    }
    assert!(matches!(main.put(&State::new()), Output::Report(Report::Pending)));
}

#[test]
fn jobs_are_reported() {
    let (mut main, state) = jobs_monitor();
    main.non_interactive = true;
    match main.put(&state) {
        Output::Report(Report::Lines(lines)) => {
            assert_eq!(
                lines,
                vec![
                    format!("{:9}  {:10} {}", 1, "success", "build"),
                    format!("{:9}  {:10} {}", 2, "failed", "test"),
                ]
            );
        }
        other => panic!("{:?}", other),
    }
    assert!(matches!(main.put(&State::new()), Output::Report(Report::Pending)));
}

#[test]
fn stamps_of_what_is_shown() {
    let (jobs, mut state) = jobs_monitor();
    let (pipelines, _) = pipelines_monitor();
    let (diff, _) = diff_monitor();
    let first = state.jobs.data.as_ref().unwrap().0;
    assert_eq!(jobs.data_stamp(&state), Some(&first));
    assert_eq!(pipelines.data_stamp(&state), None);
    let later = first + std::time::Duration::from_secs(5);
    state.pipelines.data = Some((later, vec![]));
    assert_eq!(pipelines.data_stamp(&state), Some(&later));
    assert_eq!(diff.data_stamp(&state), None);
    state.pipediff.data = Some((first, vec![]));
    assert_eq!(diff.data_stamp(&state), Some(&first));
    assert_eq!(monitor(RunMode::Help).data_stamp(&state), None);
    assert_eq!(state.response_stamp(), None);
    state.response = Some((later, "done".to_owned()));
    assert_eq!(state.response_stamp(), Some(&later));
    assert_eq!(state.jobs.stamp(), Some(&first));
}

#[test]
fn debugging_is_silent() {
    let (mut main, state) = jobs_monitor();
    main.debug = true;
    assert!(matches!(main.put(&state), Output::Silent));
    main.debug = false;
    assert!(matches!(main.put(&state), Output::Draw(Screen::Jobs(..))));
}

#[test]
fn drawn_jobs_are_selected() {
    let mut main = monitor(RunMode::Jobs(JobsMode { pipeline_id: 4, manual_jobs: false }));
    let mut state = State::new();
    main.draw(&state);
    assert_eq!(main.selected_job.selected, None);
    assert!(main.selected_job.take_rewound());
    state.jobs = Updatable { update: false, data: Some((Instant::now(), vec![job(1, "a", "s")])) };
    main.draw(&state);
    assert_eq!(main.selected_job.selected, Some(0));
}
