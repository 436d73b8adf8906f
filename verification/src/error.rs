//! What can go wrong.

use vstd::prelude::*;

verus! {

/// What can go wrong in the logic of the monitor.
#[derive(Debug)]
pub enum Error {
    /// A pattern is not a regular expression.
    RegexError(regex::Error),
    /// A question to the server is incomplete.
    BuilderError(String),
    /// There is no pipeline to show.
    NoPipelineFound,
    /// There is no configuration file.
    ConfigFile,
    /// There are fewer pipelines than a report needs.
    NotEnoughPipelines,
    /// What was waited for has failed.
    ExpectedFailure,
}

} // verus!
