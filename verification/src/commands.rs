//! The commands of the application shell: opening a file and making it the
//! active one.

use vstd::prelude::*;
use vstd::string::StringExecFns;
use crate::error::ReaderError;
use crate::frame::frame_count_of;
use crate::registry::{active_after, Registry};

verus! {

/// What opening a file reports back.
#[derive(Debug, Clone, Copy, PartialEq, Eq, Structural)]
pub struct OpenFileResult {
    pub frame_count: usize,
}

/// Whether `text` reports the failure `e` of an attempt to open a file.
pub open spec fn is_open_failure(e: ReaderError, text: Seq<char>) -> bool {
    exists|description: Seq<char>| #[trigger]
        e.is_description(description) && text == "failed to open file: "@ + description
}

/// Completes an attempt to open a file. `opened` is the reader of the file
/// with its frame count, or the reason why the file could not be opened or
/// its frames not counted. On success the reader becomes the active one and
/// the frame count is reported; on failure the slot is left exactly as it
/// was and the failure is reported in words.
pub fn open_file<R>(registry: &mut Registry<R>, opened: Result<(R, usize), ReaderError>) -> (r:
    Result<OpenFileResult, String>)
    ensures
        final(registry)@ == active_after(old(registry)@, opened),
        match opened {
            Ok((_, frame_count)) => r == Ok::<OpenFileResult, String>(
                OpenFileResult { frame_count },
            ),
            Err(e) => r matches Err(text) && is_open_failure(e, text@),
        },
{
    match opened {
        Ok((reader, frame_count)) => {
            registry.install(reader);
            Ok(OpenFileResult { frame_count })
        },
        Err(e) => {
            let description = e.describe();
            let mut text = String::from_str("failed to open file: ");
            text.append(description.as_str());
            Err(text)
        },
    }
}

/// The search path for HDF5 filter plugins that the process should run with.
/// A bundled plugin directory, if there is one, takes precedence; otherwise
/// whatever was configured from outside stays.
pub fn plugin_search_path(bundled: Option<String>, configured: Option<String>) -> (path: Option<
    String,
>)
    ensures
        path == match bundled {
            Some(directory) => Some(directory),
            None => configured,
        },
{
    match bundled {
        Some(directory) => Some(directory),
        None => configured,
    }
}

/// Opening a file whose image stack does not have three dimensions fails
/// with a layout error, and the failure leaves the reader that was active
/// before, if any, in place.
pub proof fn lemma_failed_open_keeps_active_file<R>(before: Option<R>, dims: Vec<usize>)
    requires
        dims@.len() != 3,
    ensures
        frame_count_of(Some(dims)) matches Err(e) && e is InvalidLayout && active_after(
            before,
            Err::<(R, usize), ReaderError>(e),
        ) == before,
{
}

/// An attempt to open a file either replaces the active reader by the new
/// one or changes nothing: no third state exists.
pub proof fn lemma_open_is_all_or_nothing<R>(
    before: Option<R>,
    opened: Result<(R, usize), ReaderError>,
)
    ensures
        opened is Ok ==> active_after(before, opened) == Some(opened->Ok_0.0),
        opened is Err ==> active_after(before, opened) == before,
{
}

} // verus!
