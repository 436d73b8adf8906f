use glcim::bridges::PipelineBridges;
use glcim::config::{choose_config_path, Config, ConfigHooks};
use glcim::error::Error;
use glcim::model::{Job, Pipeline};
use glcim::timestamp::Timestamp;

fn hooks() -> ConfigHooks {
    ConfigHooks {
        open_job_command: None,
        open_job_terminal: false,
        retry_job_command: None,
        remote_ref_command: None,
        open_url_program: None,
    }
}

fn config() -> Config {
    Config {
        api_key: "key".to_owned(),
        hostname: "gitlab.example.com".to_owned(),
        project: "group/app".to_owned(),
        local_repo: None,
        cookie: None,
        cert_insecure: false,
        refresh: Config::default_refresh(),
        hooks: hooks(),
    }
}

fn job() -> Job {
    let at = Timestamp::new(0, 0, 0).unwrap();
    Job {
        id: 7,
        name: "build".to_owned(),
        status: "failed".to_owned(),
        pipeline: Pipeline {
            id: 3,
            status: "failed".to_owned(),
            ref_name: "main".to_owned(),
            sha: "0123456789abcdef".to_owned(),
            web_url: "u".to_owned(),
            created_at: at,
            updated_at: at,
        },
    }
}

#[test]
fn refresh_is_ten_by_default() {
    assert_eq!(Config::default_refresh(), 10);
}

#[test]
fn addresses() {
    let config = config();
    assert_eq!(config.get_job_url(12), "https://gitlab.example.com/group/app/-/jobs/12");
    assert_eq!(
        config.get_merge_request_url(5),
        "https://gitlab.example.com/group/app/-/merge_requests/5"
    );
    assert_eq!(config.get_pipeline_url(0), "https://gitlab.example.com/group/app/pipelines/0");
    assert_ne!(config.get_job_url(12), config.get_job_url(21));
}

#[test]
fn remote_branch_script() {
    let mut config = config();
    assert_eq!(
        config.remote_ref_script(),
        "git rev-parse --abbrev-ref --symbolic-full-name @{u} | sed -r 's#[^/]+[/](.*)#\\1#g'"
    );
    config.hooks.remote_ref_command = Some("echo main".to_owned());
    assert_eq!(config.remote_ref_script(), "echo main");
}

#[test]
fn variables_of_a_hook() {
    let mut config = config();
    let found: Vec<(&str, String)> = config.hook_variables(&job(), 3);
    let expected = vec![
        ("GLCIM_JOB_ID", "7".to_owned()),
        ("GLCIM_JOB_NAME", "build".to_owned()),
        ("GLCIM_PIPELINE_ID", "3".to_owned()),
        ("GLCIM_PROJECT", "group/app".to_owned()),
        ("GLCIM_HOSTNAME", "gitlab.example.com".to_owned()),
        ("GLCIM_API_KEY", "key".to_owned()),
        ("GLCIM_CERT_INSECURE", "false".to_owned()),
        ("GLCIM_CERT_SECURE", "true".to_owned()),
    ];
    assert_eq!(found, expected);
    config.cookie = Some("c".to_owned());
    config.cert_insecure = true;
    let found = config.hook_variables(&job(), 3);
    assert_eq!(found.len(), 9);
    assert_eq!(found[6], ("GLCIM_CERT_INSECURE", "true".to_owned()));
    assert_eq!(found[7], ("GLCIM_CERT_SECURE", "false".to_owned()));
    assert_eq!(found[8], ("GLCIM_COOKIE", "c".to_owned()));
}

#[test]
fn configuration_file_is_chosen() {
    assert!(matches!(choose_config_path(Some(1), Some(2), Some(3)), Ok(1)));
    assert!(matches!(choose_config_path(None, Some(2), Some(3)), Ok(2)));
    assert!(matches!(choose_config_path(None, None, Some(3)), Ok(3)));
    assert!(matches!(choose_config_path::<u8>(None, None, None), Err(Error::ConfigFile)));
}

#[test]
fn path_of_a_question_for_bridges() {
    let bridges = PipelineBridges::builder()
        .project("group/app & more".to_owned())
        .pipeline(42)
        .build()
        .unwrap();
    assert_eq!(bridges.endpoint(), "projects/group%2Fapp%20&%20more/pipelines/42/bridges");
}

#[test]
fn project_names_are_percent_encoded() {
    for (name, segment) in [
        ("plain-name_1.2~", "plain-name_1.2~"),
        ("a/b", "a%2Fb"),
        ("a?b#c", "a%3Fb%23c"),
        ("100%", "100%25"),
        ("`<>{}\"", "%60%3C%3E%7B%7D%22"),
        ("ž\u{1}\u{7f}", "%C5%BE%01%7F"),
        ("!$&'()*+,;=:@[]\\^|", "!$&'()*+,;=:@[]\\^|"),
    ] {
        let bridges = PipelineBridges { project: name.to_owned(), pipeline: 1 };
        assert_eq!(bridges.endpoint(), format!("projects/{}/pipelines/1/bridges", segment));
    }
}

#[test]
fn incomplete_questions_for_bridges() {
    let mut builder = PipelineBridges::builder();
    assert!(matches!(
        builder.build(),
        Err(Error::BuilderError(message)) if message == "`project` must be initialized"
    ));
    builder.pipeline(1);
    assert!(matches!(
        builder.build(),
        Err(Error::BuilderError(message)) if message == "`project` must be initialized"
    ));
    let mut builder = PipelineBridges::builder();
    builder.project("p".to_owned());
    assert!(matches!(
        builder.build(),
        Err(Error::BuilderError(message)) if message == "`pipeline` must be initialized"
    ));
}
