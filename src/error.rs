use vstd::prelude::*;

verus! {

/// A field that a remote response must carry and that was absent or of the
/// wrong type.
#[derive(Debug, Clone, Copy, PartialEq, Eq, Structural)]
pub enum ResponseField {
    /// `id` of a job-creation response.
    JobId,
    /// `status` of a job-status response.
    Status,
    /// `choices[0].message.content` of a chat-completion response.
    ChatContent,
    /// The first element of a job's `output` array, which must be a string.
    OutputUrl,
}

/// Every way a run can fail.
#[derive(Debug, PartialEq, Eq)]
pub enum WallpaperError {
    /// The configuration could not be read or parsed.
    ConfigUnreadable(String),
    /// A credential refers to an environment variable that is not set.
    MissingEnvVar(String),
    /// The resolution class (given by the bit pattern of its `f32` value) is
    /// not one of the allowed ones.
    InvalidMegapixels(u32),
    /// The connection to a remote service failed.
    Transport(String),
    /// A remote service answered with a non-success HTTP status.
    Remote(u16),
    /// A remote response lacks a field the protocol requires.
    MalformedResponse(ResponseField),
    /// The job stopped in a status other than success.
    Failed(String),
    /// The polling budget ran out after this many attempts.
    TimedOut(u32),
    /// The job succeeded without producing any output.
    NoOutput,
}

} // verus!
