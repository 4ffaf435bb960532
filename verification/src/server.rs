//! The request server: what is answered to a request for the metadata or for
//! a frame of the active file.

use vstd::prelude::*;
use vstd::string::StringExecFns;
use crate::error::{LayoutFault, ReaderError};
use crate::frame::{le_bytes, lemma_frame_bytes_length, Frame};
use crate::metadata::ImageMetadata;
use crate::readers::Reader;
use crate::registry::Registry;

verus! {

/// The status of a reply that carries what was asked for.
pub const STATUS_OK: u16 = 200;

/// The status of a reply to a request that found no file open.
pub const STATUS_NOT_FOUND: u16 = 404;

/// The status of a reply to a request on which decoding failed.
pub const STATUS_FAILED: u16 = 500;

/// The content type of a frame: an untyped octet stream.
pub const FRAME_CONTENT_TYPE: &'static str = "application/octet-stream";

/// The body of a reply to a request that found no file open.
pub const NO_FILE_OPEN: &'static str = "No file open";

/// The reply to a request, before it is put on the wire.
#[derive(Debug, Clone, PartialEq)]
pub enum Reply<M> {
    /// The metadata record, to be sent as a structured record.
    Metadata(M),
    /// The bytes of a frame, to be sent as `FRAME_CONTENT_TYPE`.
    Frame(Vec<u8>),
    /// No file is open; the body is `NO_FILE_OPEN`.
    NoFileOpen,
    /// Decoding failed; the body is the description of the error.
    Failed(ReaderError),
}

impl<M> Reply<M> {
    /// The status that goes with a reply.
    pub open spec fn status_code(self) -> u16 {
        match self {
            Reply::Metadata(_) => STATUS_OK,
            Reply::Frame(_) => STATUS_OK,
            Reply::NoFileOpen => STATUS_NOT_FOUND,
            Reply::Failed(_) => STATUS_FAILED,
        }
    }

    /// Whether `text` is the text that a reply carries as its body: none for
    /// a reply that carries what was asked for, `NO_FILE_OPEN` where no file
    /// is open, the description of the error where decoding failed.
    pub open spec fn is_text_body(self, text: Option<Seq<char>>) -> bool {
        match self {
            Reply::Metadata(_) => text is None,
            Reply::Frame(_) => text is None,
            Reply::NoFileOpen => text == Some(NO_FILE_OPEN@),
            Reply::Failed(e) => text matches Some(description) && e.is_description(description),
        }
    }

    /// The text that a reply carries as its body, if it carries text.
    pub fn text_body(&self) -> (text: Option<String>)
        ensures
            self.is_text_body(
                match text {
                    Some(t) => Some(t@),
                    None => None,
                },
            ),
    {
        match self {
            Reply::Metadata(_) => None,
            Reply::Frame(_) => None,
            Reply::NoFileOpen => Some(String::from_str(NO_FILE_OPEN)),
            Reply::Failed(e) => Some(e.describe()),
        }
    }

    /// The status that goes with a reply.
    pub fn status(&self) -> (code: u16)
        ensures
            code == self.status_code(),
    {
        match self {
            Reply::Metadata(_) => STATUS_OK,
            Reply::Frame(_) => STATUS_OK,
            Reply::NoFileOpen => STATUS_NOT_FOUND,
            Reply::Failed(_) => STATUS_FAILED,
        }
    }
}

/// The reply to a metadata request for which the active reader returned
/// `outcome`.
pub open spec fn metadata_reply_of<V>(outcome: Result<ImageMetadata<V>, ReaderError>) -> Reply<
    ImageMetadata<V>,
> {
    match outcome {
        Ok(metadata) => Reply::Metadata(metadata),
        Err(e) => Reply::Failed(e),
    }
}

/// Whether `reply` is the reply to a frame request for which the active
/// reader returned `outcome`. A frame of `width * height` pixels goes out as
/// `2 * width * height` bytes: its pixels as little-endian 16-bit values,
/// row-major. A frame with another number of pixels is not sent; the reply
/// is the failure that says so, as it is for a failure of the reader.
pub open spec fn is_frame_reply<M>(outcome: Result<Frame, ReaderError>, reply: Reply<M>) -> bool {
    match outcome {
        Ok(frame) => if frame@.well_formed() {
            reply matches Reply::Frame(bytes) && bytes@ == le_bytes(frame.pixels@)
        } else {
            reply == Reply::<M>::Failed(
                ReaderError::InvalidLayout(
                    LayoutFault::WrongPixelCount {
                        width: frame.width,
                        height: frame.height,
                        found: frame.pixels@.len() as usize,
                    },
                ),
            )
        },
        Err(e) => reply == Reply::<M>::Failed(e),
    }
}

/// The reply to a metadata request, given what the active reader returned.
pub fn metadata_reply<V>(outcome: Result<ImageMetadata<V>, ReaderError>) -> (reply: Reply<
    ImageMetadata<V>,
>)
    ensures
        reply == metadata_reply_of(outcome),
{
    match outcome {
        Ok(metadata) => Reply::Metadata(metadata),
        Err(e) => Reply::Failed(e),
    }
}

/// The reply to a frame request, given what the active reader returned.
pub fn frame_reply<M>(outcome: Result<Frame, ReaderError>) -> (reply: Reply<M>)
    ensures
        is_frame_reply(outcome, reply),
{
    match outcome {
        Ok(frame) => if frame.is_well_formed() {
            Reply::Frame(frame.to_le_bytes())
        } else {
            Reply::Failed(
                ReaderError::InvalidLayout(
                    LayoutFault::WrongPixelCount {
                        width: frame.width,
                        height: frame.height,
                        found: frame.pixels.len(),
                    },
                ),
            )
        },
        Err(e) => Reply::Failed(e),
    }
}

/// Answers a request for the metadata of the active file: with no file open
/// it says so, otherwise it asks the active reader once and replies with what
/// the reader returned.
pub fn get_metadata<R: Reader>(registry: &Registry<R>) -> (reply: Reply<ImageMetadata<R::Value>>)
    ensures
        match registry@ {
            None => reply == Reply::<ImageMetadata<R::Value>>::NoFileOpen,
            Some(reader) => exists|outcome: Result<ImageMetadata<R::Value>, ReaderError>|
                (#[trigger] call_ensures(R::metadata, (&reader,), outcome)) && (reply
                    == metadata_reply_of(outcome)),
        },
{
    match registry.current() {
        Some(reader) => {
            let outcome = reader.metadata();
            let ghost seen = outcome;
            let reply = metadata_reply(outcome);
            assert(call_ensures(R::metadata, (&registry@->0,), seen) && reply
                == metadata_reply_of(seen));
            reply
        },
        None => Reply::NoFileOpen,
    }
}

/// Answers a request for frame `frame` of the active file: with no file open
/// it says so, otherwise it asks the active reader once for that frame and
/// replies with what the reader returned.
pub fn get_image<R: Reader>(registry: &Registry<R>, frame: usize) -> (reply: Reply<
    ImageMetadata<R::Value>,
>)
    ensures
        match registry@ {
            None => reply == Reply::<ImageMetadata<R::Value>>::NoFileOpen,
            Some(reader) => exists|outcome: Result<Frame, ReaderError>|
                (#[trigger] call_ensures(R::read_frame, (&reader, frame), outcome))
                    && is_frame_reply(outcome, reply),
        },
{
    match registry.current() {
        Some(reader) => frame_reply(reader.read_frame(frame)),
        None => Reply::NoFileOpen,
    }
}

/// The bytes of a frame reply are two for each pixel of the detector:
/// `2 * width * height`.
pub proof fn lemma_frame_reply_length<M>(frame: Frame, reply: Reply<M>)
    requires
        is_frame_reply(Ok(frame), reply),
        reply is Frame,
    ensures
        frame@.well_formed(),
        reply->Frame_0@.len() == 2 * frame.width * frame.height,
{
    lemma_frame_bytes_length(frame@);
}

} // verus!
