use glcim::config::{Config, ConfigHooks};
use glcim::jobs::{JobDetailMode, JobMap};
use glcim::model::{Job, Pipeline, PipelineDetails, Request, User};
use glcim::modes::{JobsMode, PipeDiff, PipelinesMode, RunMode, RxCmd};
use glcim::query::{Pages, PipelineOrder};
use glcim::state::State;
use glcim::timestamp::Timestamp;
use glcim::worker::{describe_outcome, pipelines_query, Thread, ThreadAction};
use std::time::Instant;

fn config() -> Config {
    Config {
        api_key: "key".to_owned(),
        hostname: "h".to_owned(),
        project: "group/app".to_owned(),
        local_repo: None,
        cookie: None,
        cert_insecure: false,
        refresh: 10,
        hooks: ConfigHooks {
            open_job_command: None,
            open_job_terminal: false,
            retry_job_command: None,
            remote_ref_command: None,
            open_url_program: None,
        },
    }
}

fn user() -> User {
    User { username: "me".to_owned() }
}

fn pipeline(id: u64) -> Pipeline {
    let at = Timestamp::new(0, 0, 0).unwrap();
    Pipeline {
        id,
        status: "running".to_owned(),
        ref_name: "main".to_owned(),
        sha: "0123456789abcdef".to_owned(),
        web_url: "u".to_owned(),
        created_at: at,
        updated_at: at,
    }
}

fn job(id: u64, name: &str) -> Job {
    Job { id, name: name.to_owned(), status: "failed".to_owned(), pipeline: pipeline(1) }
}

fn pipelines_mode(resolve_usernames: bool) -> PipelinesMode {
    PipelinesMode {
        all_users: false,
        custom_username: None,
        nr_pipelines: 50,
        resolve_usernames,
        ref_name: Some("main".to_owned()),
        commithash: None,
    }
}

#[test]
fn questions_for_pipelines() {
    let query = pipelines_query(&config(), &pipelines_mode(false), &user());
    assert_eq!(query.username, Some("me".to_owned()));
    assert_eq!(query.ref_name, Some("main".to_owned()));
    assert_eq!(query.sha, None);
    assert_eq!(query.pages, Pages::Limit(50));
    assert_eq!((query.project.as_str(), query.order_by), ("group/app", PipelineOrder::Id));
    let mut mode = pipelines_mode(false);
    mode.custom_username = Some("you".to_owned());
    mode.commithash = Some("abc".to_owned());
    let query = pipelines_query(&config(), &mode, &user());
    assert_eq!(query.username, Some("you".to_owned()));
    assert_eq!(query.sha, Some("abc".to_owned()));
    mode.all_users = true;
    assert_eq!(pipelines_query(&config(), &mode, &user()).username, None);
}

#[test]
fn outcomes_of_requests() {
    let ok = Ok(());
    assert_eq!(describe_outcome(Request::DeletePipeline(1), &ok), "Pipeline deletion: success");
    assert_eq!(describe_outcome(Request::CancelPipeline(1), &ok), "Pipeline cancellation: success");
    assert_eq!(describe_outcome(Request::RetryPipeline(1), &ok), "Pipeline retry: success");
    assert_eq!(describe_outcome(Request::RetryJob(1), &ok), "Job retry: success");
    assert_eq!(
        describe_outcome(Request::PlayJob(1), &Err("403".to_owned())),
        "Job play: error - 403"
    );
}

#[test]
fn nothing_to_show_stops_the_thread() {
    let mut thread = Thread::new(config(), user(), RunMode::Nothing);
    assert!(matches!(thread.begin_turn(), ThreadAction::Stop));
    let mut thread = Thread::new(config(), user(), RunMode::Help);
    assert!(matches!(thread.begin_turn(), ThreadAction::Stop));
    let mut thread = Thread::new(config(), user(), RunMode::PipeDiff(PipeDiff { from: 1, to: 2 }));
    assert!(matches!(thread.begin_turn(), ThreadAction::Listen));
    let step = thread.on_command(&mut State::new(), None);
    assert!(matches!(step.action, ThreadAction::Stop));
}

#[test]
fn pipelines_are_fetched_when_asked_for() {
    let mut thread = Thread::new(config(), user(), RunMode::Pipelines(pipelines_mode(true)));
    let mut state = State::new();
    let step = thread.on_command(&mut state, Some(RxCmd::Refresh));
    assert!(matches!(step.action, ThreadAction::Listen) && !step.notify);
    state.pipelines.update = true;
    let step = thread.on_command(&mut state, Some(RxCmd::Refresh));
    assert!(matches!(step.action, ThreadAction::FetchPipelines(query) if query.pages == Pages::Limit(50)));
    state.pipeline_trigger.insert(8, "you".to_owned());
    let step =
        thread.on_pipelines(&mut state, Instant::now(), vec![pipeline(9), pipeline(8), pipeline(7)]);
    assert!(step.notify);
    assert!(matches!(step.action, ThreadAction::FetchDetails(9)));
    assert!(!state.pipelines.update);
    assert_eq!(state.request_count, 1);
    assert_eq!(state.pipelines.data.as_ref().unwrap().1.len(), 3);
    let details = PipelineDetails {
        user: User { username: "other".to_owned() },
        status: "running".to_owned(),
        ref_name: None,
    };
    let step = thread.on_details(&mut state, 9, details);
    assert!(step.notify && matches!(step.action, ThreadAction::Listen));
    assert_eq!(state.pipeline_trigger[&9], "other");
    assert_eq!(state.request_count, 2);
    assert!(matches!(thread.on_timeout().action, ThreadAction::FetchDetails(7)));
    assert!(matches!(thread.on_timeout().action, ThreadAction::Listen));
}

#[test]
fn a_list_that_is_no_longer_wanted_is_dropped() {
    let mut thread = Thread::new(config(), user(), RunMode::Pipelines(pipelines_mode(false)));
    let mut state = State::new();
    let step = thread.on_pipelines(&mut state, Instant::now(), vec![pipeline(9)]);
    assert!(!step.notify);
    assert!(state.pipelines.data.is_none());
    assert_eq!(state.request_count, 0);
    assert_eq!(thread.pipeline_without_trigger.len(), 1);
}

#[test]
fn jobs_are_fetched_for_a_new_mode() {
    let mut thread = Thread::new(config(), user(), RunMode::Pipelines(pipelines_mode(false)));
    let mut state = State::new();
    state.jobs.update = true;
    let mode = RunMode::Jobs(JobsMode { pipeline_id: 5, manual_jobs: true });
    let step = thread.on_command(&mut state, Some(RxCmd::UpdateMode(mode)));
    assert!(matches!(step.action, ThreadAction::FetchJobs(5, JobDetailMode::WithManual)));
    let jobs = JobMap::from_jobs(&vec![job(2, "b"), job(1, "a")]);
    let step = thread.on_jobs(&mut state, Instant::now(), &jobs);
    assert!(step.notify && matches!(step.action, ThreadAction::Listen));
    let names: Vec<&str> =
        state.jobs.data.as_ref().unwrap().1.iter().map(|j| j.name.as_str()).collect();
    assert_eq!(names, vec!["a", "b"]);
    assert!(!state.jobs.update);
    let mode = RunMode::Jobs(JobsMode { pipeline_id: 5, manual_jobs: false });
    state.jobs.update = true;
    let step = thread.on_command(&mut state, Some(RxCmd::UpdateMode(mode)));
    assert!(matches!(step.action, ThreadAction::FetchJobs(5, JobDetailMode::WithoutManual)));
}

#[test]
fn two_pipelines_are_fetched_for_a_comparison() {
    let info = PipeDiff { from: 1, to: 2 };
    let mut thread = Thread::new(config(), user(), RunMode::PipeDiff(info));
    let mut state = State::new();
    state.pipediff.update = true;
    let step = thread.on_command(&mut state, Some(RxCmd::Refresh));
    assert!(matches!(step.action, ThreadAction::FetchDiff(found) if found == info));
    let from = JobMap::from_jobs(&vec![job(1, "a")]);
    let to = JobMap::from_jobs(&vec![job(2, "a"), job(3, "b")]);
    let step = thread.on_diff(&mut state, Instant::now(), from, to);
    assert!(step.notify);
    assert_eq!(state.pipediff.data.as_ref().unwrap().1.len(), 2);
    assert_eq!(state.request_count, 1);
}

#[test]
fn requests_are_put_one_after_the_other() {
    let mut thread =
        Thread::new(config(), user(), RunMode::Jobs(JobsMode { pipeline_id: 5, manual_jobs: false }));
    let mut state = State::new();
    state.request_queue.push_front(Request::RetryJob(1));
    state.request_queue.push_front(Request::DeletePipeline(2));
    let step = thread.on_command(&mut state, Some(RxCmd::Refresh));
    assert!(matches!(step.action, ThreadAction::Perform(Request::DeletePipeline(2))));
    assert!(!step.notify && state.request_queue.is_empty());
    let now = Instant::now();
    let step = thread.on_performed(&mut state, now, Request::DeletePipeline(2), &Ok(()));
    assert!(matches!(step.action, ThreadAction::Perform(Request::RetryJob(1))));
    assert!(state.pipelines.update && state.jobs.update && !state.pipediff.update);
    assert_eq!(state.response.as_ref().unwrap().1, "Pipeline deletion: success");
    let failed = Err("no".to_owned());
    let step = thread.on_performed(&mut state, now, Request::RetryJob(1), &failed);
    assert!(step.notify && matches!(step.action, ThreadAction::Listen));
    assert_eq!(state.response.as_ref().unwrap().1, "Job retry: error - no");
}

#[test]
fn requests_ask_for_what_they_change() {
    for (request, pipelines, jobs) in [
        (Request::DeletePipeline(1), true, true),
        (Request::CancelPipeline(1), true, true),
        (Request::RetryJob(1), false, true),
        (Request::PlayJob(1), false, true),
        (Request::RetryPipeline(1), true, false),
    ] {
        let mut thread = Thread::new(config(), user(), RunMode::PipeDiff(PipeDiff { from: 1, to: 2 }));
        let mut state = State::new();
        thread.on_performed(&mut state, Instant::now(), request, &Ok(()));
        assert_eq!((state.pipelines.update, state.jobs.update), (pipelines, jobs));
    }
}
