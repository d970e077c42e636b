//! Properties of the download protocol as a whole.
use vstd::prelude::*;

use crate::error::{FetchError, ParseProblem};
use crate::fetch::{transition, Effect, Phase, Signal, METADATA_URL};
use crate::metadata::{image_url_field, image_url_spec, json_value_parses, metadata_url};

verus! {

/// The content of the destination file after `e`, when it held `prior`: a
/// write replaces it whole, and any other effect leaves it.
pub open spec fn content_after(prior: Seq<u8>, e: Effect) -> Seq<u8> {
    match e {
        Effect::WriteFile(_, bytes) => bytes,
        _ => prior,
    }
}

/// The write asked for by a run to `target` in which the metadata names the
/// image address `url` and the image request answers `bytes`.
pub open spec fn write_of_run(target: Seq<char>, url: Seq<char>, bytes: Seq<u8>) -> Effect {
    let s1 = transition(target, Phase::Idle, Signal::Start);
    let s2 = transition(target, s1.0, Signal::Metadata(Ok(url)));
    transition(target, s2.0, Signal::Image(bytes)).1
}

/// A run that meets no failure, on a metadata body with a string at
/// `images[0].url`, requests the metadata, then the image on the image host at
/// that relative address, then writes exactly the bytes received to the
/// destination, and ends done.
pub proof fn lemma_run_writes_received_bytes(
    target: Seq<char>,
    body: Seq<u8>,
    bytes: Seq<u8>,
    prior: Seq<u8>,
)
    requires
        json_value_parses(body),
        image_url_field(body) is Some,
    ensures
        ({
            let s1 = transition(target, Phase::Idle, Signal::Start);
            let s2 = transition(target, s1.0, Signal::Metadata(metadata_url(body)));
            let s3 = transition(target, s2.0, Signal::Image(bytes));
            let s4 = transition(target, s3.0, Signal::Written);
            &&& s1.1 == Effect::RequestMetadata(METADATA_URL@)
            &&& s2.1 == Effect::RequestImage(image_url_spec(image_url_field(body)->Some_0))
            &&& s3.1 == Effect::WriteFile(target, bytes)
            &&& s4 == (Phase::Done, Effect::Finish)
            &&& content_after(prior, s3.1) == bytes
        }),
{
}

/// Running twice to the same destination leaves what one run to an empty
/// destination leaves: the second write replaces the first, nothing accumulates.
pub proof fn lemma_second_run_overwrites(
    target: Seq<char>,
    first_url: Seq<char>,
    first_bytes: Seq<u8>,
    url: Seq<char>,
    bytes: Seq<u8>,
    prior: Seq<u8>,
)
    ensures
        content_after(
            content_after(prior, write_of_run(target, first_url, first_bytes)),
            write_of_run(target, url, bytes),
        ) == content_after(Seq::empty(), write_of_run(target, url, bytes)),
        content_after(Seq::empty(), write_of_run(target, url, bytes)) == bytes,
{
}

/// When the metadata document has no string at `images[0].url` (no `images`,
/// an empty array, no `url`), the download stops with a parse error and no
/// image request is made; a body that is not JSON stops it the same way.
pub proof fn lemma_unreadable_metadata_stops(target: Seq<char>, body: Seq<u8>)
    requires
        !json_value_parses(body) || image_url_field(body) is None,
    ensures
        ({
            let e = if json_value_parses(body) {
                FetchError::Parse(ParseProblem::MissingImageUrl)
            } else {
                FetchError::Parse(ParseProblem::NotJson)
            };
            transition(target, Phase::AwaitingMetadata, Signal::Metadata(metadata_url(body))) == (
                Phase::Failed(e),
                Effect::Abort(e),
            )
        }),
{
}

/// A failed write of the image, such as one to a path that is a directory,
/// stops the download with a filesystem error.
pub proof fn lemma_failed_write_is_filesystem_error(target: Seq<char>)
    ensures
        transition(target, Phase::AwaitingWrite, Signal::WriteFailed) == (
            Phase::Failed(FetchError::Filesystem),
            Effect::Abort(FetchError::Filesystem),
        ),
{
}

} // verus!
