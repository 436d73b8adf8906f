//! The configuration, and what follows from it alone.

use crate::error::Error;
use crate::model::Job;
#[allow(unused_imports)]
use crate::text::{decimal, decimal_injective};
use crate::text::decimal_text;
use vstd::prelude::*;

verus! {

/// Shell commands that are run on certain occasions, with `$SHELL`.
///
/// The commands for a job find `$GLCIM_JOB_ID`, `$GLCIM_JOB_NAME`,
/// `$GLCIM_PIPELINE_ID`, `$GLCIM_HOSTNAME`, `$GLCIM_API_KEY`, `$GLCIM_PROJECT` and
/// `$GLCIM_CERT_SECURE` in their environment.
#[derive(Debug)]
pub struct ConfigHooks {
    /// Run when a job is opened.
    pub open_job_command: Option<String>,
    /// Whether `open_job_command` uses the terminal.
    pub open_job_terminal: bool,
    /// Run when a job is retried.
    pub retry_job_command: Option<String>,
    /// Prints the remote branch that belongs to the current one.
    pub remote_ref_command: Option<String>,
    /// The program that opens a URL.
    pub open_url_program: Option<String>,
}

impl Clone for ConfigHooks {
    fn clone(&self) -> (copy: Self)
        ensures
            copy == *self,
    {
        ConfigHooks {
            open_job_command: self.open_job_command.clone(),
            open_job_terminal: self.open_job_terminal,
            retry_job_command: self.retry_job_command.clone(),
            remote_ref_command: self.remote_ref_command.clone(),
            open_url_program: self.open_url_program.clone(),
        }
    }
}

/// The configuration.
#[derive(Debug)]
pub struct Config {
    pub api_key: String,
    pub hostname: String,
    pub project: String,
    /// Path to the local clone of the repository.
    pub local_repo: Option<String>,
    /// A session that can be used for online job traces.
    pub cookie: Option<String>,
    pub cert_insecure: bool,
    /// How often the data is fetched again.
    pub refresh: u64,
    pub hooks: ConfigHooks,
}

impl Clone for Config {
    fn clone(&self) -> (copy: Self)
        ensures
            copy == *self,
    {
        Config {
            api_key: self.api_key.clone(),
            hostname: self.hostname.clone(),
            project: self.project.clone(),
            local_repo: self.local_repo.clone(),
            cookie: self.cookie.clone(),
            cert_insecure: self.cert_insecure,
            refresh: self.refresh,
            hooks: self.hooks.clone(),
        }
    }
}

/// The script that prints the remote branch, where the configuration has none.
pub open spec fn default_remote_ref_script() -> Seq<char> {
    "git rev-parse --abbrev-ref --symbolic-full-name @{u} | sed -r 's#[^/]+[/](.*)#\\1#g'"@
}

/// The text of a truth value.
pub open spec fn bool_text(b: bool) -> Seq<char> {
    if b {
        "true"@
    } else {
        "false"@
    }
}

/// The names and values of `variables`.
pub open spec fn variables_view(variables: Seq<(&'static str, String)>) -> Seq<
    (Seq<char>, Seq<char>),
> {
    Seq::new(variables.len(), |i: int| (variables[i].0@, variables[i].1@))
}

impl Config {
    /// The address under which the server shows the project.
    pub open spec fn project_url(self) -> Seq<char> {
        "https://"@ + self.hostname@ + "/"@ + self.project@
    }

    /// The address of a job.
    pub open spec fn job_url(self, job_id: u64) -> Seq<char> {
        self.project_url() + "/-/jobs/"@ + decimal(job_id as nat)
    }

    /// The address of a merge request.
    pub open spec fn merge_request_url(self, iid: u64) -> Seq<char> {
        self.project_url() + "/-/merge_requests/"@ + decimal(iid as nat)
    }

    /// The address of a pipeline.
    pub open spec fn pipeline_url(self, pipeline_id: u64) -> Seq<char> {
        self.project_url() + "/pipelines/"@ + decimal(pipeline_id as nat)
    }

    /// The environment variables for a command that concerns a job.
    pub open spec fn job_variables(self, job: Job, pipeline_id: u64) -> Seq<
        (Seq<char>, Seq<char>),
    > {
        let always = seq![
            ("GLCIM_JOB_ID"@, decimal(job.id as nat)),
            ("GLCIM_JOB_NAME"@, job.name@),
            ("GLCIM_PIPELINE_ID"@, decimal(pipeline_id as nat)),
            ("GLCIM_PROJECT"@, self.project@),
            ("GLCIM_HOSTNAME"@, self.hostname@),
            ("GLCIM_API_KEY"@, self.api_key@),
            ("GLCIM_CERT_INSECURE"@, bool_text(self.cert_insecure)),
            ("GLCIM_CERT_SECURE"@, bool_text(!self.cert_insecure)),
        ];
        match self.cookie {
            Some(cookie) => always.push(("GLCIM_COOKIE"@, cookie@)),
            None => always,
        }
    }

    /// How often the data is fetched again, where the configuration does not say.
    pub fn default_refresh() -> (refresh: u64)
        ensures
            refresh == 10,
    {
        10
    }

    fn get_project_url(&self) -> (url: String)
        ensures
            url@ == self.project_url(),
    {
        "https://".to_owned().concat(self.hostname.as_str()).concat("/").concat(
            self.project.as_str(),
        )
    }

    /// The address of a job.
    pub fn get_job_url(&self, job_id: u64) -> (url: String)
        ensures
            url@ == self.job_url(job_id),
    {
        self.get_project_url().concat("/-/jobs/").concat(decimal_text(job_id).as_str())
    }

    /// The address of a merge request.
    pub fn get_merge_request_url(&self, iid: u64) -> (url: String)
        ensures
            url@ == self.merge_request_url(iid),
    {
        self.get_project_url().concat("/-/merge_requests/").concat(decimal_text(iid).as_str())
    }

    /// The address of a pipeline.
    pub fn get_pipeline_url(&self, pipeline_id: u64) -> (url: String)
        ensures
            url@ == self.pipeline_url(pipeline_id),
    {
        self.get_project_url().concat("/pipelines/").concat(decimal_text(pipeline_id).as_str())
    }

    /// The script that prints the remote branch.
    pub fn remote_ref_script(&self) -> (script: String)
        ensures
            script@ == match self.hooks.remote_ref_command {
                Some(command) => command@,
                None => default_remote_ref_script(),
            },
    {
        match &self.hooks.remote_ref_command {
            Some(command) => command.clone(),
            None =>
            "git rev-parse --abbrev-ref --symbolic-full-name @{u} | sed -r 's#[^/]+[/](.*)#\\1#g'".to_owned(),
        }
    }

    /// The environment variables for a command that concerns a job.
    pub fn hook_variables(&self, job: &Job, pipeline_id: u64) -> (variables: Vec<
        (&'static str, String),
    >)
        ensures
            variables_view(variables@) == self.job_variables(*job, pipeline_id),
    {
        let mut variables: Vec<(&'static str, String)> = Vec::new();
        variables.push(("GLCIM_JOB_ID", decimal_text(job.id)));
        variables.push(("GLCIM_JOB_NAME", job.name.clone()));
        variables.push(("GLCIM_PIPELINE_ID", decimal_text(pipeline_id)));
        variables.push(("GLCIM_PROJECT", self.project.clone()));
        variables.push(("GLCIM_HOSTNAME", self.hostname.clone()));
        variables.push(("GLCIM_API_KEY", self.api_key.clone()));
        variables.push(("GLCIM_CERT_INSECURE", show_bool(self.cert_insecure)));
        variables.push(("GLCIM_CERT_SECURE", show_bool(!self.cert_insecure)));
        if let Some(cookie) = &self.cookie {
            variables.push(("GLCIM_COOKIE", cookie.clone()));
        }
        assert(variables_view(variables@) =~= self.job_variables(*job, pipeline_id));
        variables
    }

    /// Two jobs have two addresses, and so have two merge requests and two pipelines.
    pub proof fn urls_are_distinct(self, a: u64, b: u64)
        requires
            a != b,
        ensures
            self.job_url(a) != self.job_url(b),
            self.merge_request_url(a) != self.merge_request_url(b),
            self.pipeline_url(a) != self.pipeline_url(b),
    {
        decimal_injective(a as nat, b as nat);
        same_prefix(self.project_url() + "/-/jobs/"@, decimal(a as nat), decimal(b as nat));
        same_prefix(
            self.project_url() + "/-/merge_requests/"@,
            decimal(a as nat),
            decimal(b as nat),
        );
        same_prefix(self.project_url() + "/pipelines/"@, decimal(a as nat), decimal(b as nat));
    }
}

proof fn same_prefix(prefix: Seq<char>, a: Seq<char>, b: Seq<char>)
    ensures
        prefix + a == prefix + b ==> a == b,
{
    if prefix + a == prefix + b {
        assert(a =~= (prefix + a).skip(prefix.len() as int));
        assert(b =~= (prefix + b).skip(prefix.len() as int));
    }
}

fn show_bool(b: bool) -> (text: String)
    ensures
        text@ == bool_text(b),
{
    if b {
        "true".to_owned()
    } else {
        "false".to_owned()
    }
}

/// Picks the configuration file: the one on the command line, else the one that the
/// environment names, else the one of the user.
pub fn choose_config_path<P>(argument: Option<P>, variable: Option<P>, user: Option<P>) -> (path:
    Result<P, Error>)
    ensures
        path == match (argument, variable, user) {
            (Some(p), _, _) => Ok::<P, Error>(p),
            (None, Some(p), _) => Ok::<P, Error>(p),
            (None, None, Some(p)) => Ok::<P, Error>(p),
            (None, None, None) => Err::<P, Error>(Error::ConfigFile),
        },
{
    match (argument, variable, user) {
        (Some(p), _, _) => Ok(p),
        (None, Some(p), _) => Ok(p),
        (None, None, Some(p)) => Ok(p),
        (None, None, None) => Err(Error::ConfigFile),
    }
}

} // verus!
