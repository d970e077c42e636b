//! The download protocol: request the metadata, request the image it names,
//! write the image. The caller performs each effect and reports what came of
//! it; the decisions are made here.
use vstd::prelude::*;

use crate::error::FetchError;
use crate::metadata::{extract_image_url, metadata_url};

verus! {

/// Address of the document that describes today's image.
pub const METADATA_URL: &'static str = "https://cn.bing.com/HPImageArchive.aspx?format=js&n=1";

/// Bound, in seconds, on each request the caller makes.
pub const REQUEST_TIMEOUT_SECS: u64 = 30;

/// Where a download stands.
#[derive(Clone, Copy, Debug, PartialEq, Eq, Structural)]
pub enum Phase {
    Idle,
    AwaitingMetadata,
    AwaitingImage,
    AwaitingWrite,
    Done,
    Failed(FetchError),
}

/// What the caller reports back.
#[derive(Debug)]
pub enum Event {
    /// Begin the download.
    Start,
    /// The metadata request answered with this body.
    MetadataReceived(Vec<u8>),
    /// The metadata request failed.
    MetadataFailed,
    /// The image request answered with these bytes.
    ImageReceived(Vec<u8>),
    /// The image request failed.
    ImageFailed,
    /// The image was written.
    WriteSucceeded,
    /// Writing the image failed.
    WriteFailed,
}

/// What the caller is asked to do next.
#[derive(Debug)]
pub enum Action {
    /// Nothing: the event does not apply in the current phase.
    Wait,
    /// GET this address and report the body.
    RequestMetadata(String),
    /// GET this address and report the bytes.
    RequestImage(String),
    /// Replace the whole content of the file at this path with these bytes.
    WriteFile(String, Vec<u8>),
    /// The image is written.
    Finish,
    /// Stop with this error.
    Abort(FetchError),
}

/// An event as the protocol sees it, with the metadata body already read.
pub enum Signal {
    Start,
    Metadata(Result<Seq<char>, FetchError>),
    MetadataFailed,
    Image(Seq<u8>),
    ImageFailed,
    Written,
    WriteFailed,
}

/// The mathematical value of an action.
pub enum Effect {
    Wait,
    RequestMetadata(Seq<char>),
    RequestImage(Seq<char>),
    WriteFile(Seq<char>, Seq<u8>),
    Finish,
    Abort(FetchError),
}

impl View for Action {
    type V = Effect;

    open spec fn view(&self) -> Effect {
        match self {
            Action::Wait => Effect::Wait,
            Action::RequestMetadata(url) => Effect::RequestMetadata(url@),
            Action::RequestImage(url) => Effect::RequestImage(url@),
            Action::WriteFile(path, bytes) => Effect::WriteFile(path@, bytes@),
            Action::Finish => Effect::Finish,
            Action::Abort(e) => Effect::Abort(*e),
        }
    }
}

/// The signal of `ev`: a metadata body is read for the image address.
pub open spec fn signal_of(ev: Event) -> Signal {
    match ev {
        Event::Start => Signal::Start,
        Event::MetadataReceived(body) => Signal::Metadata(metadata_url(body@)),
        Event::MetadataFailed => Signal::MetadataFailed,
        Event::ImageReceived(bytes) => Signal::Image(bytes@),
        Event::ImageFailed => Signal::ImageFailed,
        Event::WriteSucceeded => Signal::Written,
        Event::WriteFailed => Signal::WriteFailed,
    }
}

/// The next phase and the effect asked for, for a download writing to
/// `target`. A signal that does not fit the phase changes nothing.
pub open spec fn transition(target: Seq<char>, phase: Phase, s: Signal) -> (Phase, Effect) {
    match phase {
        Phase::Idle => match s {
            Signal::Start => (Phase::AwaitingMetadata, Effect::RequestMetadata(METADATA_URL@)),
            _ => (phase, Effect::Wait),
        },
        Phase::AwaitingMetadata => match s {
            Signal::Metadata(Ok(url)) => (Phase::AwaitingImage, Effect::RequestImage(url)),
            Signal::Metadata(Err(e)) => (Phase::Failed(e), Effect::Abort(e)),
            Signal::MetadataFailed => (
                Phase::Failed(FetchError::Network),
                Effect::Abort(FetchError::Network),
            ),
            _ => (phase, Effect::Wait),
        },
        Phase::AwaitingImage => match s {
            Signal::Image(bytes) => (Phase::AwaitingWrite, Effect::WriteFile(target, bytes)),
            Signal::ImageFailed => (
                Phase::Failed(FetchError::Network),
                Effect::Abort(FetchError::Network),
            ),
            _ => (phase, Effect::Wait),
        },
        Phase::AwaitingWrite => match s {
            Signal::Written => (Phase::Done, Effect::Finish),
            Signal::WriteFailed => (
                Phase::Failed(FetchError::Filesystem),
                Effect::Abort(FetchError::Filesystem),
            ),
            _ => (phase, Effect::Wait),
        },
        _ => (phase, Effect::Wait),
    }
}

/// A download of today's image to one destination file.
pub struct Fetcher {
    pub target: String,
    pub phase: Phase,
}

impl Fetcher {
    /// A download to `target` that has not started.
    pub fn new(target: String) -> (r: Fetcher)
        ensures
            r.target == target,
            r.phase == Phase::Idle,
    {
        Fetcher { target, phase: Phase::Idle }
    }

    fn apply(&mut self, next: Phase, action: Action) -> (r: Action)
        ensures
            final(self).target == old(self).target,
            final(self).phase == next,
            r == action,
    {
        self.phase = next;
        action
    }

    /// Takes the report `ev` and returns what to do next. A metadata body is
    /// read for the image address as `extract_image_url` reads it.
    pub fn step(&mut self, ev: Event) -> (r: Action)
        ensures
            final(self).target == old(self).target,
            (final(self).phase, r@) == transition(old(self).target@, old(self).phase, signal_of(ev)),
    {
        match (self.phase, ev) {
            (Phase::Idle, Event::Start) => {
                self.apply(Phase::AwaitingMetadata, Action::RequestMetadata(String::from_str(METADATA_URL)))
            },
            (Phase::AwaitingMetadata, Event::MetadataReceived(body)) => {
                match extract_image_url(body.as_slice()) {
                    Ok(url) => self.apply(Phase::AwaitingImage, Action::RequestImage(url)),
                    Err(e) => self.apply(Phase::Failed(e), Action::Abort(e)),
                }
            },
            (Phase::AwaitingMetadata, Event::MetadataFailed) => {
                self.apply(Phase::Failed(FetchError::Network), Action::Abort(FetchError::Network))
            },
            (Phase::AwaitingImage, Event::ImageReceived(bytes)) => {
                let target = self.target.clone();
                self.apply(Phase::AwaitingWrite, Action::WriteFile(target, bytes))
            },
            (Phase::AwaitingImage, Event::ImageFailed) => {
                self.apply(Phase::Failed(FetchError::Network), Action::Abort(FetchError::Network))
            },
            (Phase::AwaitingWrite, Event::WriteSucceeded) => self.apply(Phase::Done, Action::Finish),
            (Phase::AwaitingWrite, Event::WriteFailed) => {
                self.apply(Phase::Failed(FetchError::Filesystem), Action::Abort(FetchError::Filesystem))
            },
            _ => Action::Wait,
        }
    }
}

} // verus!
