//! What the monitor and the thread that talks to the server share.

use crate::diff::JobDiff;
use crate::model::{Job, Pipeline, Request};
use crate::updatable::Updatable;
use std::collections::{HashMap, VecDeque};
use std::time::Instant;
use vstd::prelude::*;

verus! {

/// What the monitor and the thread that talks to the server share.
#[derive(Debug)]
pub struct State {
    /// How often data from the server was taken over.
    pub request_count: u64,
    pub pipelines: Updatable<Vec<Pipeline>>,
    pub jobs: Updatable<Vec<Job>>,
    pub pipediff: Updatable<Vec<JobDiff>>,
    /// The confirmed requests that the server was not yet asked for.
    pub request_queue: VecDeque<Request>,
    /// How the last request went.
    pub response: Option<(Instant, String)>,
    /// Who started a pipeline.
    pub pipeline_trigger: HashMap<u64, String>,
}

impl State {
    /// Nothing is known yet.
    pub fn new() -> (state: State)
        ensures
            state.request_count == 0,
            !state.pipelines.update && state.pipelines.data is None,
            !state.jobs.update && state.jobs.data is None,
            !state.pipediff.update && state.pipediff.data is None,
            state.request_queue@ == Seq::<Request>::empty(),
            state.response is None,
            state.pipeline_trigger@ == Map::<u64, String>::empty(),
    {
        State {
            request_count: 0,
            pipelines: Updatable::new(),
            jobs: Updatable::new(),
            pipediff: Updatable::new(),
            request_queue: VecDeque::new(),
            response: None,
            pipeline_trigger: HashMap::new(),
        }
    }
}

} // verus!
