use glcim::config::{Config, ConfigHooks};
use glcim::diff::{diff_jobs, report_changes, shown_diffs, JobDiff};
use glcim::jobs::{JobCollector, JobDetailMode, JobMap, JobScope};
use glcim::model::{Bridge, Job, Pipeline};
use glcim::query::Pages;
use glcim::timestamp::Timestamp;

fn config() -> Config {
    Config {
        api_key: "key".to_owned(),
        hostname: "h".to_owned(),
        project: "group/app".to_owned(),
        local_repo: None,
        cookie: None,
        cert_insecure: false,
        refresh: 10,
        hooks: ConfigHooks {
            open_job_command: None,
            open_job_terminal: false,
            retry_job_command: None,
            remote_ref_command: None,
            open_url_program: None,
        },
    }
}

fn pipeline(id: u64) -> Pipeline {
    let at = Timestamp::new(0, 0, 0).unwrap();
    Pipeline {
        id,
        status: "running".to_owned(),
        ref_name: "main".to_owned(),
        sha: "0123456789abcdef".to_owned(),
        web_url: "u".to_owned(),
        created_at: at,
        updated_at: at,
    }
}

fn job(id: u64, name: &str, status: &str) -> Job {
    Job { id, name: name.to_owned(), status: status.to_owned(), pipeline: pipeline(1) }
}

fn ids(map: &JobMap) -> Vec<(String, u64)> {
    (0..map.len()).map(|i| (map.entry(i).0.clone(), map.entry(i).1.id)).collect()
}

#[test]
fn jobs_come_out_by_name_and_once() {
    let jobs = vec![job(1, "test", "failed"), job(2, "build", "success"), job(3, "test", "running")];
    let map = JobMap::from_jobs(&jobs);
    assert_eq!(ids(&map), vec![("build".to_owned(), 2), ("test".to_owned(), 3)]);
    assert_eq!(map.values().iter().map(|j| j.id).collect::<Vec<u64>>(), vec![2, 3]);
    assert_eq!(JobMap::new().len(), 0);
}

#[test]
fn a_job_replaces_the_one_of_its_name() {
    let mut map = JobMap::new();
    map.insert("b".to_owned(), job(1, "b", "s"));
    map.insert("a".to_owned(), job(2, "a", "s"));
    map.insert("c".to_owned(), job(3, "c", "s"));
    map.insert("b".to_owned(), job(4, "b", "s"));
    assert_eq!(
        ids(&map),
        vec![("a".to_owned(), 2), ("b".to_owned(), 4), ("c".to_owned(), 3)]
    );
}

#[test]
fn jobs_of_child_pipelines_are_collected() {
    let mut collector = JobCollector::new(10, JobDetailMode::WithoutManual);
    let query = collector.query(&config()).unwrap();
    assert_eq!(query.pipeline_id, 10);
    assert_eq!((query.project.as_str(), query.pages), ("group/app", Pages::All));
    let bridges = query.bridges().unwrap();
    assert_eq!((bridges.project.as_str(), bridges.pipeline), ("group/app", 10));
    assert_eq!(
        query.scopes,
        vec![
            JobScope::Pending,
            JobScope::Running,
            JobScope::Failed,
            JobScope::Success,
            JobScope::Canceled
        ]
    );
    let bridges = vec![
        Bridge { downstream_pipeline: None },
        Bridge { downstream_pipeline: Some(pipeline(11)) },
        Bridge { downstream_pipeline: Some(pipeline(12)) },
    ];
    collector.add(vec![job(1, "parent", "success"), job(2, "both", "failed")], &bridges);
    assert_eq!(collector.query(&config()).unwrap().pipeline_id, 11);
    let grandchild = vec![Bridge { downstream_pipeline: Some(pipeline(13)) }];
    collector.add(vec![job(3, "child", "success"), job(4, "both", "success")], &grandchild);
    let query = collector.query(&config()).unwrap();
    assert_eq!((query.pipeline_id, query.scopes.len(), query.pages), (12, 5, Pages::All));
    collector.add(vec![job(5, "other", "success")], &vec![]);
    assert_eq!(collector.query(&config()).unwrap().pipeline_id, 13);
    collector.add(vec![job(6, "last", "success")], &vec![]);
    assert!(collector.query(&config()).is_none());
    assert_eq!(
        ids(&collector.finish()),
        vec![
            ("both".to_owned(), 4),
            ("child".to_owned(), 3),
            ("last".to_owned(), 6),
            ("other".to_owned(), 5),
            ("parent".to_owned(), 1),
        ]
    );
}

#[test]
fn manual_jobs_are_asked_for_last() {
    let collector = JobCollector::new(10, JobDetailMode::WithManual);
    let scopes = collector.query(&config()).unwrap().scopes;
    assert_eq!(scopes.len(), 6);
    assert_eq!(scopes[5], JobScope::Manual);
}

fn diffs() -> Vec<JobDiff> {
    let from = vec![
        job(1, "build", "success"),
        job(2, "lint", "failed"),
        job(3, "old", "success"),
        job(4, "test", "running"),
    ];
    let to = vec![
        job(5, "build", "success"),
        job(6, "lint", "success"),
        job(7, "new", "failed"),
        job(8, "test", "failed"),
    ];
    diff_jobs(JobMap::from_jobs(&from), JobMap::from_jobs(&to))
}

#[test]
fn jobs_of_two_pipelines_side_by_side() {
    let shape: Vec<(char, String)> = diffs()
        .into_iter()
        .map(|d| match d {
            JobDiff::Left(a) => ('l', a.0),
            JobDiff::Right(b) => ('r', b.0),
            JobDiff::Both(a, b) => {
                assert_eq!(a.0, b.0);
                assert_eq!(a.1.id + 4, b.1.id);
                ('b', a.0)
            }
        })
        .collect();
    let expected: Vec<(char, String)> = [
        ('b', "build"),
        ('b', "lint"),
        ('r', "new"),
        ('l', "old"),
        ('b', "test"),
    ]
    .iter()
    .map(|(c, n)| (*c, (*n).to_owned()))
    .collect();
    assert_eq!(shape, expected);
}

#[test]
fn one_sided_differences() {
    let one = || JobMap::from_jobs(&vec![job(1, "a", "s"), job(2, "b", "s")]);
    let left = diff_jobs(one(), JobMap::new());
    assert!(matches!(&left[..], [JobDiff::Left(a), JobDiff::Left(b)] if a.0 == "a" && b.0 == "b"));
    let right = diff_jobs(JobMap::new(), one());
    assert!(
        matches!(&right[..], [JobDiff::Right(a), JobDiff::Right(b)] if a.0 == "a" && b.0 == "b")
    );
    assert!(diff_jobs(JobMap::new(), JobMap::new()).is_empty());
}

#[test]
fn changes_of_a_status_are_reported() {
    let lines = report_changes(&diffs());
    assert_eq!(
        lines,
        vec![
            format!("{:width$}: failed -> success", "lint", width = 40),
            format!("{:width$}: running -> failed", "test", width = 40),
        ]
    );
}

#[test]
fn unchanged_jobs_can_be_hidden() {
    let names = |hide: bool| -> Vec<String> {
        shown_diffs(&diffs(), hide)
            .into_iter()
            .map(|d| match d {
                JobDiff::Both(a, _) => a.0,
                _ => panic!("a job of one pipeline is shown"),
            })
            .collect()
    };
    assert_eq!(names(true), vec!["lint", "test"]);
    assert_eq!(names(false), vec!["build", "lint", "test"]);
}
