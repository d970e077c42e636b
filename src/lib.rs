//! Fetches the search engine's image of the day: resolves where the image is
//! written, reads the image's address out of the metadata document, and drives
//! the two requests and the write as a state machine whose effects the caller
//! performs.
use vstd::prelude::*;

pub mod error;
pub mod fetch;
pub mod laws;
pub mod metadata;
pub mod path;

verus! {

/// File name used when the destination is an existing directory.
pub const DEFAULT_IMAGE_NAME: &'static str = "bings-everyday-wallpaper.jpg";

} // verus!
