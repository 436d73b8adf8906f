//! Questions to the server.

use vstd::prelude::*;

verus! {

/// How much of a list is asked for.
#[derive(Debug, Clone, Copy, PartialEq, Eq, Structural)]
pub enum Pages {
    /// All of it.
    All,
    /// So many of its first items.
    Limit(usize),
}

/// The order of a list of pipelines.
#[derive(Debug, Clone, Copy, PartialEq, Eq, Structural)]
pub enum PipelineOrder {
    /// By their IDs, the newest first.
    Id,
}

/// A question for a list of pipelines.
#[derive(Debug)]
pub struct PipelinesQuery {
    pub project: String,
    pub order_by: PipelineOrder,
    /// The user who started them; anyone, where it is missing.
    pub username: Option<String>,
    /// The commit that they run on; any, where it is missing.
    pub sha: Option<String>,
    /// The branch that they run on; any, where it is missing.
    pub ref_name: Option<String>,
    pub pages: Pages,
}

} // verus!
