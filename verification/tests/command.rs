use glcim::alias::{AliasAction, AliasJob};
use glcim::command::{
    alias_pipelines, branch_source, list_merge_requests, newest_on_branch, pair_up,
    plan_command, two_newest, BranchSource, Plan,
};
use glcim::config::{Config, ConfigHooks};
use glcim::error::Error;
use glcim::jobs::JobMap;
use glcim::model::{Job, MergeRequestResult, Pipeline};
use glcim::modes::{
    AliasCommands, AliasJobsMode, AliasPipelines, CommandMode, JobsMode, MergeRequestsOptions,
    PipeDiff, PipelinesMode, ReportCommands, RunMode, TwoPipelinesReports, WaitOptions,
};
use glcim::query::{Pages, PipelineOrder};
use glcim::timestamp::Timestamp;

fn config() -> Config {
    Config {
        api_key: "key".to_owned(),
        hostname: "h".to_owned(),
        project: "group/app".to_owned(),
        local_repo: None,
        cookie: None,
        cert_insecure: false,
        refresh: 10,
        hooks: ConfigHooks {
            open_job_command: None,
            open_job_terminal: false,
            retry_job_command: None,
            remote_ref_command: None,
            open_url_program: None,
        },
    }
}

fn at(secs: i64) -> Timestamp {
    Timestamp::new(secs, 0, 0).unwrap()
}

fn pipeline(id: u64, sha: &str, created: i64) -> Pipeline {
    Pipeline {
        id,
        status: "running".to_owned(),
        ref_name: "main".to_owned(),
        sha: sha.to_owned(),
        web_url: "u".to_owned(),
        created_at: at(created),
        updated_at: at(created),
    }
}

fn jobs_info(id: Option<u64>, age: Option<u64>, hash: Option<&str>) -> AliasJobsMode {
    AliasJobsMode {
        pipeline_id: id,
        wait_by_creation_time: age,
        wait_by_githash: hash.map(|s| s.to_owned()),
    }
}

fn pipelines_info() -> AliasPipelines {
    AliasPipelines {
        all_refs: false,
        specific_ref: None,
        specific_commithash: None,
        everyone: false,
        custom_username: Some("you".to_owned()),
        nr_pipelines: 7,
    }
}

fn shows(action: &AliasAction, id: u64) -> bool {
    matches!(
        action,
        AliasAction::Done(RunMode::Jobs(m)) if m.pipeline_id == id && !m.manual_jobs
    )
}

#[test]
fn plans_of_command_lines() {
    let diff = PipeDiff { from: 1, to: 2 };
    assert!(matches!(
        plan_command(CommandMode::PipeDiff(diff)),
        Plan::Show(RunMode::PipeDiff(d)) if d == diff
    ));
    let jobs = JobsMode { pipeline_id: 1, manual_jobs: true };
    assert!(matches!(
        plan_command(CommandMode::Jobs(jobs)),
        Plan::Show(RunMode::Jobs(j)) if j == jobs
    ));
    let pipelines = PipelinesMode {
        all_users: true,
        custom_username: None,
        nr_pipelines: 3,
        resolve_usernames: false,
        ref_name: None,
        commithash: None,
    };
    assert!(matches!(
        plan_command(CommandMode::Pipelines(pipelines)),
        Plan::Show(RunMode::Pipelines(p)) if p.all_users && p.nr_pipelines == 3
    ));
    let wait = WaitOptions::Pipeline { id: 4, strict_jobs: None, markdown: false };
    assert!(matches!(plan_command(CommandMode::Wait(wait)), Plan::Wait(_)));
    let requests = MergeRequestsOptions::ByPipelineId { pipeline_id: 4 };
    assert!(matches!(
        plan_command(CommandMode::MergeRequests(requests)),
        Plan::ListMergeRequests(MergeRequestsOptions::ByPipelineId { pipeline_id: 4 })
    ));
    let alias = AliasCommands::Jobs(jobs_info(Some(1), None, None));
    assert!(matches!(plan_command(CommandMode::FromAlias(alias)), Plan::FindJobs(_)));
    let alias = AliasCommands::Pipelines(pipelines_info());
    assert!(matches!(plan_command(CommandMode::FromAlias(alias)), Plan::FindPipelines(_)));
    let report = TwoPipelinesReports { ref_name: "main".to_owned() };
    assert!(matches!(
        plan_command(CommandMode::FromReport(ReportCommands::TwoPipelinesReports(report))),
        Plan::Compare(r) if r.ref_name == "main"
    ));
}

#[test]
fn where_a_branch_is_taken_from() {
    let mut info = pipelines_info();
    assert!(matches!(branch_source(&info), BranchSource::Repository));
    info.specific_ref = Some("dev".to_owned());
    assert!(matches!(branch_source(&info), BranchSource::Given(b) if b == "dev"));
    info.specific_commithash = Some("abc".to_owned());
    assert!(matches!(branch_source(&info), BranchSource::NoBranch));
}

#[test]
fn pipelines_of_a_branch() {
    let branch = Some("dev".to_owned());
    let shown = |info: AliasPipelines, branch: Option<String>| -> PipelinesMode {
        match alias_pipelines(info, branch) {
            RunMode::Pipelines(mode) => mode,
            other => panic!("{:?}", other),
        }
    };
    let mode = shown(pipelines_info(), branch.clone());
    assert_eq!(mode.ref_name, branch);
    assert_eq!(mode.custom_username, Some("you".to_owned()));
    assert_eq!((mode.all_users, mode.resolve_usernames, mode.nr_pipelines), (false, false, 7));
    let mode = shown(AliasPipelines { all_refs: true, ..pipelines_info() }, branch.clone());
    assert_eq!(mode.ref_name, None);
    let hash = Some("abc".to_owned());
    let info = AliasPipelines { specific_commithash: hash.clone(), ..pipelines_info() };
    let mode = shown(info, None);
    assert_eq!((mode.ref_name, mode.commithash), (None, hash));
    let mode = shown(AliasPipelines { everyone: true, ..pipelines_info() }, branch);
    assert_eq!((mode.ref_name, mode.custom_username), (None, None));
    assert_eq!((mode.all_users, mode.resolve_usernames, mode.nr_pipelines), (true, true, 7));
    let specific = Some("rel".to_owned());
    let info =
        AliasPipelines { everyone: true, specific_ref: specific.clone(), ..pipelines_info() };
    let mode = shown(info, specific.clone());
    assert_eq!((mode.all_users, mode.ref_name), (true, specific.clone()));
    let info = AliasPipelines {
        everyone: true,
        all_refs: true,
        specific_ref: specific.clone(),
        ..pipelines_info()
    };
    let mode = shown(info, specific);
    assert_eq!((mode.all_users, mode.ref_name), (true, None));
}

#[test]
fn question_for_the_newest_pipelines() {
    let query = newest_on_branch(&config(), "main".to_owned(), 2);
    assert_eq!(query.ref_name, Some("main".to_owned()));
    assert_eq!((query.username, query.sha, query.pages), (None, None, Pages::Limit(2)));
    assert_eq!((query.project.as_str(), query.order_by), ("group/app", PipelineOrder::Id));
}

#[test]
fn two_pipelines_to_compare() {
    let list = vec![pipeline(9, "b", 0), pipeline(8, "a", 0)];
    let (from, to) = two_newest(&list).unwrap();
    assert_eq!((from.id, to.id), (8, 9));
    assert!(matches!(two_newest(&list[..1].to_vec()), Err(Error::NotEnoughPipelines)));
    assert!(matches!(two_newest(&vec![]), Err(Error::NotEnoughPipelines)));
}

#[test]
fn each_pipeline_has_its_jobs() {
    let jobs = |id: u64| {
        JobMap::from_jobs(&vec![Job {
            id,
            name: "build".to_owned(),
            status: "success".to_owned(),
            pipeline: pipeline(1, "a", 0),
        }])
    };
    let two = (pipeline(8, "a", 0), pipeline(9, "b", 0));
    let pair = pair_up("main".to_owned(), two, jobs(80), jobs(90));
    assert_eq!(pair.ref_name, "main");
    assert_eq!((pair.from.id, pair.to.id), (8, 9));
    assert_eq!((pair.from_jobs.entry(0).1.id, pair.to_jobs.entry(0).1.id), (80, 90));
}

#[test]
fn merge_requests_are_listed() {
    let config = config();
    let found = vec![
        MergeRequestResult { iid: 4, target_branch: "main".to_owned() },
        MergeRequestResult { iid: 2, target_branch: "stable".to_owned() },
    ];
    assert_eq!(
        list_merge_requests(&config, "dev", &found),
        vec![
            "dev -> main   https://h/group/app/-/merge_requests/4",
            "dev -> stable   https://h/group/app/-/merge_requests/2",
        ]
    );
    assert!(list_merge_requests(&config, "dev", &vec![]).is_empty());
}

#[test]
fn a_given_pipeline_is_not_looked_for() {
    assert!(shows(&AliasJob::new(jobs_info(Some(6), None, None)).start(), 6));
    let alias = AliasJob::new(jobs_info(None, None, None));
    assert!(matches!(alias.start(), AliasAction::Fetch));
}

#[test]
fn the_newest_pipeline_is_shown() {
    let mut alias = AliasJob::new(jobs_info(None, None, None));
    let step = alias.on_pipelines(&vec![pipeline(9, "a", 0)], &at(1_000_000));
    assert!(step.message.is_none() && shows(&step.action, 9));
    let step = alias.on_pipelines(&vec![], &at(0));
    assert!(matches!(step.action, AliasAction::Fail(Error::NoPipelineFound)));
}

#[test]
fn waiting_for_a_young_pipeline() {
    let mut alias = AliasJob::new(jobs_info(None, Some(60), None));
    let old = vec![pipeline(9, "a", 0)];
    let step = alias.on_pipelines(&vec![], &at(60));
    assert!(matches!(step.action, AliasAction::Sleep(1000)));
    assert_eq!(
        step.message,
        Some("glim: waiting for a new pipeline to be created (no older than 60 seconds)".to_owned())
    );
    let step = alias.on_pipelines(&old, &at(60));
    assert!(step.message.is_none() && matches!(step.action, AliasAction::Sleep(1000)));
    let step = alias.on_pipelines(&old, &at(59));
    assert!(step.message.is_none() && shows(&step.action, 9));
}

#[test]
fn a_pipeline_of_yesterday_is_not_young() {
    let mut alias = AliasJob::new(jobs_info(None, Some(60), None));
    let old = vec![pipeline(9, "a", 40_000)];
    let step = alias.on_pipelines(&old, &at(86_400 + 39_000));
    assert!(matches!(step.action, AliasAction::Sleep(1000)));
}

#[test]
fn a_pipeline_ahead_of_the_clock_is_young() {
    let mut alias = AliasJob::new(jobs_info(None, Some(0), None));
    let new = vec![pipeline(9, "a", 10)];
    assert!(shows(&alias.on_pipelines(&new, &at(5)).action, 9));
    let step = alias.on_pipelines(&new, &at(10));
    assert!(matches!(step.action, AliasAction::Sleep(1000)));
    let mut alias = AliasJob::new(jobs_info(None, Some(u64::MAX), None));
    assert!(shows(&alias.on_pipelines(&new, &at(1_000_000)).action, 9));
}

#[test]
fn waiting_for_a_commit() {
    let mut alias = AliasJob::new(jobs_info(None, None, Some("abc")));
    let step = alias.on_pipelines(&vec![pipeline(9, "def", 0)], &at(0));
    assert_eq!(
        step.message,
        Some("glim: waiting for a new pipeline to be created (of githash abc)".to_owned())
    );
    let step = alias.on_pipelines(&vec![pipeline(10, "abc", 0)], &at(0));
    assert!(shows(&step.action, 10));
}
