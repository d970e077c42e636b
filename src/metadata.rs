//! Reading the image's address out of the metadata document.
use vstd::prelude::*;

use crate::error::{FetchError, ParseProblem};

verus! {

/// Scheme and host that the relative image address is appended to.
pub const IMAGE_HOST: &'static str = "https://www.bing.com";

#[verifier::external_type_specification]
#[verifier::external_body]
pub struct ExJsonError(serde_json::Error);

/// Whether serde_json reads `body` as one JSON value.
pub uninterp spec fn json_value_parses(body: Seq<u8>) -> bool;

/// Key of the top object that holds the list of images.
pub const IMAGES_KEY: &'static str = "images";

/// Position of today's image in that list.
pub const TODAY_INDEX: usize = 0;

/// Key of an image entry that holds its relative address.
pub const URL_KEY: &'static str = "url";

/// The string that serde_json finds in the JSON value of `body` under
/// `[key][index][field]`: `key` a key of the top object, `index` a position in
/// the array found there, `field` a key of that element. None where a step is
/// missing or the value found is not a string.
pub uninterp spec fn json_string_at(body: Seq<u8>, key: Seq<char>, index: usize, field: Seq<char>) -> Option<Seq<char>>;

/// The relative address of today's image in the metadata body `body`, the
/// string at `images[0].url`.
pub open spec fn image_url_field(body: Seq<u8>) -> Option<Seq<char>> {
    json_string_at(body, IMAGES_KEY@, TODAY_INDEX, URL_KEY@)
}

/// An optional text seen through its view.
pub open spec fn text_view(t: Option<String>) -> Option<Seq<char>> {
    match t {
        Some(s) => Some(s@),
        None => None,
    }
}

/// Relies on serde_json::from_slice into a `serde_json::Value`, which succeeds
/// exactly on the bodies that hold one JSON value, and on `Value::get` (a
/// `&str` index reads an object, a `usize` index an array) and
/// `Value::as_str` to read the string at `[key][index][field]`.
#[verifier::external_body]
fn read_string_at(body: &[u8], key: &str, index: usize, field: &str) -> (r: Result<
    Option<String>,
    serde_json::Error,
>)
    ensures
        r is Ok <==> json_value_parses(body@),
        r is Ok ==> text_view(r->Ok_0) == json_string_at(body@, key@, index, field@),
{
    serde_json::from_slice::<serde_json::Value>(body).map(|v| {
        v.get(key).and_then(|a| a.get(index)).and_then(|e| e.get(field)).and_then(|u| u.as_str()).map(
            |t| t.to_string(),
        )
    })
}

/// The absolute address of an image whose relative address is `relative`.
pub open spec fn image_url_spec(relative: Seq<char>) -> Seq<char> {
    IMAGE_HOST@ + relative
}

/// Prefixes the relative image address with the image host.
pub fn image_url_from_relative(relative: &str) -> (r: String)
    ensures
        r@ == image_url_spec(relative@),
{
    let mut r = String::from_str(IMAGE_HOST);
    r.append(relative);
    r
}

/// The image address for the string found at `images[0].url`, if any.
pub fn image_url_from_field(field: Option<&str>) -> (r: Result<String, FetchError>)
    ensures
        match field {
            Some(rel) => r is Ok && r->Ok_0@ == image_url_spec(rel@),
            None => r == Err::<String, FetchError>(FetchError::Parse(ParseProblem::MissingImageUrl)),
        },
{
    match field {
        Some(rel) => Ok(image_url_from_relative(rel)),
        None => Err(FetchError::Parse(ParseProblem::MissingImageUrl)),
    }
}

/// An extraction result seen through the view of its address.
pub open spec fn url_view(r: Result<String, FetchError>) -> Result<Seq<char>, FetchError> {
    match r {
        Ok(url) => Ok(url@),
        Err(e) => Err(e),
    }
}

/// The result of reading the image address out of the metadata body `body`:
/// `NotJson` for a body that is not JSON, `MissingImageUrl` for a document
/// without a string at `images[0].url`, and that string on the image host
/// otherwise.
pub open spec fn metadata_url(body: Seq<u8>) -> Result<Seq<char>, FetchError> {
    if !json_value_parses(body) {
        Err(FetchError::Parse(ParseProblem::NotJson))
    } else {
        match image_url_field(body) {
            Some(rel) => Ok(image_url_spec(rel)),
            None => Err(FetchError::Parse(ParseProblem::MissingImageUrl)),
        }
    }
}

/// Reads the absolute image address out of a metadata response body. A body
/// that is not JSON fails with `NotJson`; a document without a string at
/// `images[0].url` fails with `MissingImageUrl`.
pub fn extract_image_url(body: &[u8]) -> (r: Result<String, FetchError>)
    ensures
        url_view(r) == metadata_url(body@),
{
    match read_string_at(body, IMAGES_KEY, TODAY_INDEX, URL_KEY) {
        Err(_) => Err(FetchError::Parse(ParseProblem::NotJson)),
        Ok(Some(rel)) => image_url_from_field(Some(rel.as_str())),
        Ok(None) => image_url_from_field(None),
    }
}

} // verus!
