//! What the server reports, and what it can be asked to do.

use crate::timestamp::Timestamp;
use vstd::prelude::*;

verus! {

/// A run of a project's CI.
#[derive(Debug)]
pub struct Pipeline {
    pub id: u64,
    pub status: String,
    /// The branch or tag that the pipeline runs on.
    pub ref_name: String,
    pub sha: String,
    pub web_url: String,
    pub created_at: Timestamp,
    pub updated_at: Timestamp,
}

impl Clone for Pipeline {
    fn clone(&self) -> (copy: Self)
        ensures
            copy == *self,
    {
        Pipeline {
            id: self.id,
            status: self.status.clone(),
            ref_name: self.ref_name.clone(),
            sha: self.sha.clone(),
            web_url: self.web_url.clone(),
            created_at: self.created_at,
            updated_at: self.updated_at,
        }
    }
}

/// A job of a pipeline.
#[derive(Debug)]
pub struct Job {
    pub id: u64,
    pub name: String,
    pub status: String,
    pub pipeline: Pipeline,
}

impl Clone for Job {
    fn clone(&self) -> (copy: Self)
        ensures
            copy == *self,
    {
        Job {
            id: self.id,
            name: self.name.clone(),
            status: self.status.clone(),
            pipeline: self.pipeline.clone(),
        }
    }
}

/// A link from a pipeline to a pipeline that it starts.
#[derive(Debug)]
pub struct Bridge {
    pub downstream_pipeline: Option<Pipeline>,
}

/// A user of the server.
#[derive(Debug)]
pub struct User {
    pub username: String,
}

impl Clone for User {
    fn clone(&self) -> (copy: Self)
        ensures
            copy == *self,
    {
        User { username: self.username.clone() }
    }
}

/// What the server tells of a single pipeline.
#[derive(Debug)]
pub struct PipelineDetails {
    pub user: User,
    pub status: String,
    pub ref_name: Option<String>,
}

/// A merge request of the project.
#[derive(Debug)]
pub struct MergeRequestResult {
    pub iid: u64,
    pub target_branch: String,
}

/// Something that the server is asked to do.
#[derive(Debug, Clone, Copy, PartialEq, Eq, Structural)]
pub enum Request {
    DeletePipeline(u64),
    CancelPipeline(u64),
    PlayJob(u64),
    RetryJob(u64),
    RetryPipeline(u64),
}

/// Copies a list of pipelines.
pub fn clone_pipelines(pipelines: &Vec<Pipeline>) -> (copy: Vec<Pipeline>)
    ensures
        copy@ == pipelines@,
{
    let mut copy: Vec<Pipeline> = Vec::new();
    let mut i: usize = 0;
    while i < pipelines.len()
        invariant
            i <= pipelines.len(),
            copy@ =~= pipelines@.take(i as int),
        decreases pipelines.len() - i,
    {
        copy.push(pipelines[i].clone());
        i += 1;
    }
    assert(pipelines@.take(i as int) =~= pipelines@);
    copy
}

/// A copy of a list of jobs.
pub fn clone_jobs(jobs: &Vec<Job>) -> (copy: Vec<Job>)
    ensures
        copy@ == jobs@,
{
    let mut copy: Vec<Job> = Vec::new();
    let mut i: usize = 0;
    while i < jobs.len()
        invariant
            i <= jobs.len(),
            copy@ =~= jobs@.take(i as int),
        decreases jobs.len() - i,
    {
        copy.push(jobs[i].clone());
        i += 1;
    }
    assert(jobs@.take(i as int) =~= jobs@);
    copy
}

} // verus!
