//! Readers of detector files: the capability every format offers, the choice
//! of format by file extension, and the reader of NeXus files.

use vstd::prelude::*;
use vstd::string::StringExecFns;
use crate::error::ReaderError;
use crate::frame::Frame;
use crate::metadata::ImageMetadata;
use crate::units::{lowercase, same_text, to_lowercase};

verus! {

/// What a reader of any file format can do. Every call reads the file anew,
/// so a reader may be shared freely; nothing is promised of what a call
/// returns, since that depends on what is on disk at the time.
pub trait Reader: Send + Sync {
    /// The type of the numbers measured values are read as.
    type Value;

    /// The detector metadata, the same for all frames of the file.
    fn metadata(&self) -> Result<ImageMetadata<Self::Value>, ReaderError>;

    /// The number of frames in the file.
    fn frame_count(&self) -> Result<usize, ReaderError>;

    /// One frame, by its index from 0.
    fn read_frame(&self, frame: usize) -> Result<Frame, ReaderError>;
}

/// The file formats for which there is a reader.
#[derive(Debug, Clone, Copy, PartialEq, Eq, Structural)]
pub enum FileFormat {
    /// NeXus, stored as HDF5.
    Nexus,
}

/// The format that a lower-case file extension stands for.
pub open spec fn format_of_lowercase(extension: Seq<char>) -> Option<FileFormat> {
    if extension == "nxs"@ || extension == "h5"@ || extension == "hdf5"@ || extension == "nx5"@ {
        Some(FileFormat::Nexus)
    } else {
        None
    }
}

/// The format that a file extension stands for, whatever its case. A path
/// without an extension has the empty one.
pub open spec fn format_of(extension: Option<Seq<char>>) -> Result<FileFormat, Seq<char>> {
    let lowered = match extension {
        Some(e) => lowercase(e),
        None => lowercase(""@),
    };
    match format_of_lowercase(lowered) {
        Some(format) => Ok(format),
        None => Err(lowered),
    }
}

/// Whether `r` is the choice of format for a path with the given extension:
/// the format the extension stands for, or the error that names the
/// extension in lower case.
pub open spec fn is_selection(extension: Option<Seq<char>>, r: Result<FileFormat, ReaderError>)
    -> bool {
    match r {
        Ok(format) => format_of(extension) == Ok::<FileFormat, Seq<char>>(format),
        Err(ReaderError::UnsupportedFormat(lowered)) => format_of(extension) == Err::<
            FileFormat,
            Seq<char>,
        >(lowered@),
        Err(_) => false,
    }
}

/// The extension of a path: what `Path::extension` of the standard library
/// gives for the path on the platform the library is built for.
pub uninterp spec fn extension_of(path: Seq<char>) -> Option<Seq<char>>;

/// `Path::extension` of the standard library, on a path given as text: the
/// part of the file name after its last dot, if the file name has one that
/// is not its first character. The contract claims only that the result
/// depends on the text of the path alone, under the name `extension_of`;
/// where the file name begins in a path is the platform's affair and is not
/// written out.
#[verifier::external_body]
fn path_extension(path: &str) -> (extension: Option<String>)
    ensures
        match extension {
            Some(e) => extension_of(path@) == Some(e@),
            None => extension_of(path@) is None,
        },
{
    std::path::Path::new(path).extension().map(|e| e.to_string_lossy().into_owned())
}

/// The format that a lower-case file extension stands for.
pub fn format_from_lowercase(extension: &str) -> (r: Option<FileFormat>)
    ensures
        r == format_of_lowercase(extension@),
{
    if same_text(extension, "nxs") || same_text(extension, "h5") || same_text(extension, "hdf5")
        || same_text(extension, "nx5") {
        Some(FileFormat::Nexus)
    } else {
        None
    }
}

/// The format that a file extension stands for, or the error that names the
/// extension.
pub fn format_for_extension(extension: Option<&str>) -> (r: Result<FileFormat, ReaderError>)
    ensures
        is_selection(
            match extension {
                Some(e) => Some(e@),
                None => None,
            },
            r,
        ),
{
    let lowered: String = match extension {
        Some(e) => to_lowercase(e),
        None => to_lowercase(""),
    };
    match format_from_lowercase(lowered.as_str()) {
        Some(format) => Ok(format),
        None => Err(ReaderError::UnsupportedFormat(lowered)),
    }
}

/// Chooses the reader for a file by the extension of its path.
pub fn select_format(path: &str) -> (r: Result<FileFormat, ReaderError>)
    ensures
        is_selection(extension_of(path@), r),
{
    let extension: Option<String> = path_extension(path);
    match &extension {
        Some(e) => format_for_extension(Some(e.as_str())),
        None => format_for_extension(None),
    }
}

/// The reader of one NeXus file. It owns the path of the file and nothing
/// else: no handle is kept between calls.
#[derive(Debug, Clone, PartialEq, Eq)]
pub struct NxsReader {
    path: String,
}

impl View for NxsReader {
    type V = Seq<char>;

    closed spec fn view(&self) -> Seq<char> {
        self.path@
    }
}

/// Whether `r` is what opening the NeXus file at `path` gives when a trial
/// opening of the file went as `trial`: the reader of the path, or the
/// failure that names the path and the cause.
pub open spec fn is_nxs_opened(
    path: Seq<char>,
    trial: Result<(), String>,
    r: Result<NxsReader, ReaderError>,
) -> bool {
    match trial {
        Ok(_) => r matches Ok(reader) && reader@ == path,
        Err(cause) => r matches Err(ReaderError::Io(text)) && text@ == "Cannot open "@ + path
            + ": "@ + cause@,
    }
}

impl NxsReader {
    /// Makes the reader of the file at `path`, given how a trial opening of
    /// the file went: `Ok` if it could be opened, else the cause of the
    /// failure. A file that cannot be opened gives no reader.
    pub fn open(path: &str, trial: Result<(), String>) -> (r: Result<NxsReader, ReaderError>)
        ensures
            is_nxs_opened(path@, trial, r),
    {
        match trial {
            Ok(_) => Ok(NxsReader { path: path.to_owned() }),
            Err(cause) => {
                let mut text = String::from_str("Cannot open ");
                text.append(path);
                text.append(": ");
                text.append(cause.as_str());
                Err(ReaderError::Io(text))
            },
        }
    }

    /// The path of the file.
    pub fn path(&self) -> (path: &str)
        ensures
            path@ == self@,
    {
        self.path.as_str()
    }

    /// The failure of a later attempt to open the file, for a reading: it
    /// names the path and the cause.
    pub fn unreadable(&self, cause: &str) -> (e: ReaderError)
        ensures
            e matches ReaderError::Io(text) && text@ == "Failed to open "@ + self@ + ": "@
                + cause@,
    {
        let mut text = String::from_str("Failed to open ");
        text.append(self.path.as_str());
        text.append(": ");
        text.append(cause);
        ReaderError::Io(text)
    }
}

/// Opens the file at `path` with the reader that its extension calls for.
/// The extension is judged first; only a path with a supported extension is
/// handed to `try_open`, which tries the file and reports the cause if it
/// cannot be opened.
pub fn open<F: FnOnce(&str) -> Result<(), String>>(path: &str, try_open: F) -> (r: Result<
    NxsReader,
    ReaderError,
>)
    requires
        try_open.requires((path,)),
    ensures
        match format_of(extension_of(path@)) {
            Err(lowered) => r matches Err(ReaderError::UnsupportedFormat(named)) && named@
                == lowered,
            Ok(FileFormat::Nexus) => exists|trial: Result<(), String>|
                #![trigger try_open.ensures((path,), trial)]
                try_open.ensures((path,), trial) && is_nxs_opened(path@, trial, r),
        },
{
    match select_format(path) {
        Ok(FileFormat::Nexus) => {
            let trial = try_open(path);
            let ghost seen = trial;
            let r = NxsReader::open(path, trial);
            assert(try_open.ensures((path,), seen) && is_nxs_opened(path@, seen, r));
            r
        },
        Err(e) => Err(e),
    }
}

} // verus!
