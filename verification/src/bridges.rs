//! The question for the links from a pipeline to the pipelines that it starts.

use crate::error::Error;
#[allow(unused_imports)]
use crate::text::decimal;
use crate::text::decimal_text;
use vstd::prelude::*;
#[allow(unused_imports)]
use vstd::utf8::encode_utf8;

verus! {

/// Whether a byte stands for itself in a segment of a path: it is printable ASCII
/// without a meaning in a URL.
pub open spec fn plain_in_path(b: u8) -> bool {
    &&& 0x20 < b < 0x7f
    &&& b != 0x22 && b != 0x23 && b != 0x25 && b != 0x2f
    &&& b != 0x3c && b != 0x3e && b != 0x3f && b != 0x60
    &&& b != 0x7b && b != 0x7d
}

/// The hexadecimal digit for `d`, a number below sixteen.
pub open spec fn hex_digit(d: u8) -> char {
    if d < 10 {
        (0x30 + d) as char
    } else {
        (0x37 + d) as char
    }
}

/// A name as a segment of a path: each byte that has a meaning there is written as a
/// percent sign with its two hexadecimal digits.
pub open spec fn path_segment(bytes: Seq<u8>) -> Seq<char>
    decreases bytes.len(),
{
    if bytes.len() == 0 {
        Seq::empty()
    } else {
        let b = bytes.last();
        let shown = if plain_in_path(b) {
            seq![b as char]
        } else {
            seq!['%', hex_digit(b / 16), hex_digit(b % 16)]
        };
        path_segment(bytes.drop_last()) + shown
    }
}

/// A project's name in a path: `to_string` of `gitlab::api::common::NameOrId`, made
/// from the name. The claim is that it percent-encodes the bytes of the name that
/// have a meaning in a path, with upper-case digits, and leaves the others.
#[verifier::external_body]
fn gitlab_path_segment(name: &str) -> (segment: String)
    ensures
        segment@ == path_segment(encode_utf8(name@)),
{
    gitlab::api::common::NameOrId::from(name).to_string()
}

/// A question for the links from a pipeline to the pipelines that it starts.
#[derive(Debug)]
pub struct PipelineBridges {
    /// The project of the pipeline.
    pub project: String,
    /// The ID of the pipeline.
    pub pipeline: u64,
}

impl PipelineBridges {
    /// Starts to put a question together.
    pub fn builder() -> (builder: PipelineBridgesBuilder)
        ensures
            builder == (PipelineBridgesBuilder { project: None, pipeline: None }),
    {
        PipelineBridgesBuilder { project: None, pipeline: None }
    }

    /// The path to ask at.
    pub fn endpoint(&self) -> (path: String)
        ensures
            path@ == "projects/"@ + path_segment(encode_utf8(self.project@)) + "/pipelines/"@
                + decimal(self.pipeline as nat) + "/bridges"@,
    {
        "projects/".to_owned().concat(gitlab_path_segment(self.project.as_str()).as_str()).concat(
            "/pipelines/",
        ).concat(decimal_text(self.pipeline).as_str()).concat("/bridges")
    }
}

/// A question that is being put together.
#[derive(Debug)]
pub struct PipelineBridgesBuilder {
    pub project: Option<String>,
    pub pipeline: Option<u64>,
}

impl PipelineBridgesBuilder {
    /// Sets the project.
    pub fn project(&mut self, project: String) -> (builder: &mut PipelineBridgesBuilder)
        ensures
            *builder == (PipelineBridgesBuilder { project: Some(project), ..*old(self) }),
            *final(self) == *final(builder),
    {
        self.project = Some(project);
        self
    }

    /// Sets the pipeline.
    pub fn pipeline(&mut self, pipeline: u64) -> (builder: &mut PipelineBridgesBuilder)
        ensures
            *builder == (PipelineBridgesBuilder { pipeline: Some(pipeline), ..*old(self) }),
            *final(self) == *final(builder),
    {
        self.pipeline = Some(pipeline);
        self
    }

    /// The question, or which of its parts is missing.
    pub fn build(&self) -> (bridges: Result<PipelineBridges, Error>)
        ensures
            match (self.project, self.pipeline) {
                (Some(project), Some(pipeline)) => bridges == Ok::<_, Error>(
                    PipelineBridges { project, pipeline },
                ),
                (None, _) => bridges matches Err(Error::BuilderError(message)) && message@
                    == "`project` must be initialized"@,
                (Some(_), None) => bridges matches Err(Error::BuilderError(message)) && message@
                    == "`pipeline` must be initialized"@,
            },
    {
        match (&self.project, self.pipeline) {
            (Some(project), Some(pipeline)) => Ok(
                PipelineBridges { project: project.clone(), pipeline },
            ),
            (None, _) => Err(Error::BuilderError("`project` must be initialized".to_owned())),
            (Some(_), None) => Err(
                Error::BuilderError("`pipeline` must be initialized".to_owned()),
            ),
        }
    }
}

} // verus!
