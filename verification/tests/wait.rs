use glcim::config::{Config, ConfigHooks};
use glcim::error::Error;
use glcim::jobs::JobMap;
use glcim::model::{Job, MergeRequestResult, Pipeline, PipelineDetails, User};
use glcim::modes::WaitOptions;
use glcim::timestamp::Timestamp;
use glcim::wait::{
    end_wait, failed_among, list_failed_jobs, report_strict, Wait, WaitAction, WaitStep,
};

fn config() -> Config {
    Config {
        api_key: "key".to_owned(),
        hostname: "h".to_owned(),
        project: "p".to_owned(),
        local_repo: None,
        cookie: None,
        cert_insecure: false,
        refresh: 10,
        hooks: ConfigHooks {
            open_job_command: None,
            open_job_terminal: false,
            retry_job_command: None,
            remote_ref_command: None,
            open_url_program: None,
        },
    }
}

fn wait(strict_jobs: Option<&str>, markdown: bool) -> Wait {
    let strict_jobs = strict_jobs.map(|s| s.to_owned());
    Wait::new(WaitOptions::Pipeline { id: 5, strict_jobs, markdown }).unwrap()
}

fn details(status: &str, branch: Option<&str>) -> PipelineDetails {
    PipelineDetails {
        user: User { username: "me".to_owned() },
        status: status.to_owned(),
        ref_name: branch.map(|s| s.to_owned()),
    }
}

fn jobs(list: &[(u64, &str, &str)]) -> JobMap {
    let at = Timestamp::new(0, 0, 0).unwrap();
    let jobs = list
        .iter()
        .map(|(id, name, status)| Job {
            id: *id,
            name: (*name).to_owned(),
            status: (*status).to_owned(),
            pipeline: Pipeline {
                id: 5,
                status: "running".to_owned(),
                ref_name: "main".to_owned(),
                sha: "0123456789abcdef".to_owned(),
                web_url: "u".to_owned(),
                created_at: at,
                updated_at: at,
            },
        })
        .collect();
    JobMap::from_jobs(&jobs)
}

fn ends(step: &WaitStep, expected: bool) -> bool {
    matches!(step.action, WaitAction::Finish { failed } if failed == expected)
}

#[test]
fn waiting_for_success() {
    let mut wait = wait(None, false);
    assert!(matches!(wait.look(), WaitAction::FetchDetails(5)));
    let step = wait.on_details(&config(), details("pending", None));
    assert_eq!(step.out, vec!["Pipeline 5 status: pending"]);
    assert!(step.err.is_empty() && matches!(step.action, WaitAction::Sleep(5000)));
    let step = wait.on_details(&config(), details("running", None));
    assert_eq!(step.out, vec!["Pipeline 5 status: running"]);
    let step = wait.on_details(&config(), details("running", None));
    assert!(step.out.is_empty() && matches!(step.action, WaitAction::Sleep(5000)));
    let step = wait.on_details(&config(), details("success", None));
    assert_eq!(step.out, vec!["Pipeline 5 status: success"]);
    assert!(ends(&step, false));
}

#[test]
fn waiting_for_failure() {
    for status in ["failed", "skipped"] {
        let step = wait(None, false).on_details(&config(), details(status, None));
        assert!(ends(&step, true));
    }
    assert!(matches!(end_wait(true), Err(Error::ExpectedFailure)));
    assert!(matches!(end_wait(false), Ok(())));
}

#[test]
fn merge_requests_are_asked_for_until_one_is_there() {
    let mut wait = wait(None, true);
    let step = wait.on_details(&config(), details("running", Some("dev")));
    assert!(step.out.is_empty());
    match step.action {
        WaitAction::FetchMergeRequests(branch, status) => {
            assert_eq!((branch.as_str(), status.as_str()), ("dev", "running"));
            let step = wait.on_merge_requests(&config(), branch, status, &vec![]);
            assert_eq!(step.out, vec!["Pipeline [5](https://h/p/pipelines/5) status: running"]);
        }
        other => panic!("{:?}", other),
    }
    let step = wait.on_details(&config(), details("canceled", Some("dev")));
    assert!(matches!(step.action, WaitAction::FetchMergeRequests(..)));
    let found = vec![
        MergeRequestResult { iid: 3, target_branch: "main".to_owned() },
        MergeRequestResult { iid: 2, target_branch: "old".to_owned() },
    ];
    let step =
        wait.on_merge_requests(&config(), "dev".to_owned(), "canceled".to_owned(), &found);
    assert_eq!(
        step.out,
        vec![
            "Pipeline [5](https://h/p/pipelines/5), MR [3](https://h/p/-/merge_requests/3) \
             (`dev` → `main`) status: canceled"
        ]
    );
    assert!(matches!(step.action, WaitAction::Sleep(5000)));
    let step = wait.on_details(&config(), details("success", Some("dev")));
    assert!(ends(&step, false));
}

#[test]
fn failed_jobs_are_listed_in_markdown() {
    let mut wait = wait(None, true);
    let step = wait.on_details(&config(), details("failed", None));
    assert!(matches!(step.action, WaitAction::FetchFailedJobs(5)));
    let jobs = jobs(&[(1, "build", "failed"), (2, "lint", "success"), (3, "test", "failed")]);
    let step = wait.on_failed_jobs(&config(), &jobs);
    assert_eq!(
        step.out,
        vec!["In jobs: [build](https://h/p/-/jobs/1), [test](https://h/p/-/jobs/3)"]
    );
    assert!(ends(&step, true));
}

#[test]
fn no_failed_jobs_to_list() {
    assert_eq!(list_failed_jobs(&config(), &jobs(&[(1, "a", "success")])), "In jobs: ");
    assert_eq!(
        list_failed_jobs(&config(), &jobs(&[(1, "a", "failed")])),
        "In jobs: [a](https://h/p/-/jobs/1)"
    );
}

#[test]
fn strict_jobs_end_the_wait() {
    let mut wait = wait(Some("^te.t"), false);
    let step = wait.on_details(&config(), details("running", None));
    assert_eq!(step.out, vec!["Pipeline 5 status: running"]);
    let status = match step.action {
        WaitAction::FetchStrictJobs(5, status) => status,
        other => panic!("{:?}", other),
    };
    assert_eq!(status, "running");
    let quiet = jobs(&[(1, "build", "failed"), (2, "test", "running"), (3, "attest", "failed")]);
    let step = wait.on_strict_jobs(&config(), status, &quiet);
    assert!(step.err.is_empty() && matches!(step.action, WaitAction::Sleep(5000)));
    let step = wait.on_details(&config(), details("running", None));
    assert!(step.out.is_empty());
    let loud = jobs(&[(1, "build", "failed"), (2, "test:1", "failed"), (3, "test:2", "failed")]);
    let step = wait.on_strict_jobs(&config(), "running".to_owned(), &loud);
    assert_eq!(
        step.err,
        vec![
            "",
            "Considered failed earlier due to jobs:",
            "",
            "  test:1: https://h/p/-/jobs/5",
            "  test:2: https://h/p/-/jobs/5",
        ]
    );
    assert!(step.out.is_empty() && ends(&step, true));
}

#[test]
fn strict_jobs_do_not_matter_before_the_pipeline_runs() {
    let mut wait = wait(Some("."), false);
    let step = wait.on_details(&config(), details("pending", None));
    assert!(matches!(step.action, WaitAction::Sleep(5000)));
}

#[test]
fn strict_failures_are_taken_as_given() {
    let mut strict = wait(Some("x"), false);
    let names = vec!["a".to_owned()];
    let step = strict.on_strict_failures(&config(), "running".to_owned(), &names);
    assert_eq!(step.err, report_strict(&config(), 5, &names));
    assert!(ends(&step, true));
    let step = strict.on_strict_failures(&config(), "running".to_owned(), &vec![]);
    assert!(matches!(step.action, WaitAction::Sleep(5000)));
}

#[test]
fn failed_jobs_among_the_marked() {
    let jobs = jobs(&[(1, "a", "failed"), (2, "b", "failed"), (3, "c", "success")]);
    assert_eq!(failed_among(&jobs, &vec![true, false, true]), vec!["a"]);
    assert_eq!(failed_among(&jobs, &vec![true, true, true]), vec!["a", "b"]);
    assert!(failed_among(&jobs, &vec![false, false, true]).is_empty());
}

#[test]
fn a_pattern_that_is_none() {
    let options =
        WaitOptions::Pipeline { id: 5, strict_jobs: Some("(".to_owned()), markdown: false };
    assert!(matches!(Wait::new(options), Err(Error::RegexError(_))));
}

#[test]
fn a_pipeline_that_is_not_there() {
    let wait = wait(None, false);
    let step = wait.on_refusal("404 Not found").unwrap();
    assert_eq!(step.err, vec!["Pipeline not found"]);
    assert!(step.out.is_empty() && ends(&step, true));
    assert!(wait.on_refusal("403 Forbidden").is_none());
}
