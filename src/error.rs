//! The ways a run can fail.
use vstd::prelude::*;

verus! {

/// What was wrong with the metadata document.
#[derive(Clone, Copy, Debug, PartialEq, Eq, Structural)]
pub enum ParseProblem {
    /// The body is not a JSON document.
    NotJson,
    /// The document holds no string at `images[0].url`.
    MissingImageUrl,
}

/// Why a run stopped. The caller keeps the underlying message of a
/// filesystem or network failure and reports it beside this kind.
#[derive(Clone, Copy, Debug, PartialEq, Eq, Structural)]
pub enum FetchError {
    /// Creating the destination's directories or writing the file failed.
    Filesystem,
    /// A request failed at the transport or status level.
    Network,
    /// The metadata document could not be read.
    Parse(ParseProblem),
}

/// The text shown for an error.
pub open spec fn error_message(e: FetchError) -> Seq<char> {
    match e {
        FetchError::Filesystem => "filesystem error"@,
        FetchError::Network => "network error"@,
        FetchError::Parse(ParseProblem::NotJson) => "parse error: the metadata is not JSON"@,
        FetchError::Parse(ParseProblem::MissingImageUrl) => "parse error: the metadata holds no image url"@,
    }
}

impl FetchError {
    /// A short description of the error, shown before the underlying cause.
    pub fn message(&self) -> (r: &'static str)
        ensures
            r@ == error_message(*self),
    {
        match self {
            FetchError::Filesystem => "filesystem error",
            FetchError::Network => "network error",
            FetchError::Parse(ParseProblem::NotJson) => "parse error: the metadata is not JSON",
            FetchError::Parse(ParseProblem::MissingImageUrl) => "parse error: the metadata holds no image url",
        }
    }
}

} // verus!
