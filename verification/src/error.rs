//! The failures that decoding and serving can report, and how they are
//! described to the operator.

use vstd::prelude::*;
use vstd::string::{to_string_from_display_ensures, StringExecFns};

verus! {

/// What is wrong with the structure of a file.
#[derive(Debug, Clone, PartialEq, Eq)]
pub enum LayoutFault {
    /// The image stack is not at its conventional path.
    MissingDataset,
    /// The image stack has this many dimensions instead of three.
    WrongRank(usize),
    /// A frame was delivered with `found` pixels where the stack declares
    /// `width * height`.
    WrongPixelCount { width: usize, height: usize, found: usize },
}

/// Every failure the library reports.
#[derive(Debug, Clone, PartialEq, Eq)]
pub enum ReaderError {
    /// The file is missing or unreadable; carries the underlying message.
    Io(String),
    /// The file extension names no supported format; carries the extension,
    /// lower-cased.
    UnsupportedFormat(String),
    /// A required dataset or group is missing or has the wrong shape.
    InvalidLayout(LayoutFault),
    /// The pixel element type is not one of the supported integers; carries
    /// the descriptor of the type that was found.
    UnsupportedDtype(String),
    /// The requested frame index is not below the frame count.
    OutOfRange { index: usize, frame_count: usize },
    /// No file is active.
    NotOpen,
}

/// Whether `digits` is the number `n` as the standard library prints it.
pub open spec fn is_decimal(n: usize, digits: Seq<char>) -> bool {
    exists|printed: String| #[trigger]
        to_string_from_display_ensures::<usize>(&n, printed) && printed@ == digits
}

/// The number `n` as the standard library prints it.
fn decimal(n: usize) -> (digits: String)
    ensures
        is_decimal(n, digits@),
{
    n.to_string()
}

impl LayoutFault {
    /// Whether `text` describes the fault.
    pub open spec fn is_description(self, text: Seq<char>) -> bool {
        match self {
            LayoutFault::MissingDataset => text == "Failed to open dataset entry/data/data"@,
            LayoutFault::WrongRank(rank) => exists|r: Seq<char>| #[trigger]
                is_decimal(rank, r) && text == "Expected 3D dataset, got "@ + r + "D"@,
            LayoutFault::WrongPixelCount { width, height, found } => exists|
                w: Seq<char>,
                h: Seq<char>,
                f: Seq<char>,
            |
                #![trigger is_decimal(width, w), is_decimal(height, h), is_decimal(found, f)]
                is_decimal(width, w) && is_decimal(height, h) && is_decimal(found, f) && text
                    == "Expected a frame of "@ + w + "x"@ + h + " pixels, got "@ + f,
        }
    }

    /// The description of the fault.
    pub fn describe(&self) -> (text: String)
        ensures
            self.is_description(text@),
    {
        match self {
            LayoutFault::MissingDataset => String::from_str(
                "Failed to open dataset entry/data/data",
            ),
            LayoutFault::WrongRank(rank) => {
                let r = decimal(*rank);
                let mut text = String::from_str("Expected 3D dataset, got ");
                text.append(r.as_str());
                text.append("D");
                text
            },
            LayoutFault::WrongPixelCount { width, height, found } => {
                let w = decimal(*width);
                let h = decimal(*height);
                let f = decimal(*found);
                let mut text = String::from_str("Expected a frame of ");
                text.append(w.as_str());
                text.append("x");
                text.append(h.as_str());
                text.append(" pixels, got ");
                text.append(f.as_str());
                text
            },
        }
    }
}

impl ReaderError {
    /// Whether `text` describes the error. An input or output failure is
    /// described by its underlying message; an unsupported extension or
    /// element type is named in the description.
    pub open spec fn is_description(self, text: Seq<char>) -> bool {
        match self {
            ReaderError::Io(message) => text == message@,
            ReaderError::UnsupportedFormat(extension) => text == "Unsupported file extension '."@
                + extension@ + "'. Supported: nxs, h5, hdf5, nx5"@,
            ReaderError::InvalidLayout(fault) => fault.is_description(text),
            ReaderError::UnsupportedDtype(descriptor) => text == "Unsupported pixel dtype: "@
                + descriptor@,
            ReaderError::OutOfRange { index, frame_count } => exists|i: Seq<char>, n: Seq<char>|
                #![trigger is_decimal(index, i), is_decimal(frame_count, n)]
                is_decimal(index, i) && is_decimal(frame_count, n) && text == "Frame index "@ + i
                    + " out of range (dataset has "@ + n + " frames)"@,
            ReaderError::NotOpen => text == "No file open"@,
        }
    }

    /// The description of the error, as it is shown to the operator.
    pub fn describe(&self) -> (text: String)
        ensures
            self.is_description(text@),
    {
        match self {
            ReaderError::Io(message) => message.clone(),
            ReaderError::UnsupportedFormat(extension) => {
                let mut text = String::from_str("Unsupported file extension '.");
                text.append(extension.as_str());
                text.append("'. Supported: nxs, h5, hdf5, nx5");
                text
            },
            ReaderError::InvalidLayout(fault) => fault.describe(),
            ReaderError::UnsupportedDtype(descriptor) => {
                let mut text = String::from_str("Unsupported pixel dtype: ");
                text.append(descriptor.as_str());
                text
            },
            ReaderError::OutOfRange { index, frame_count } => {
                let i = decimal(*index);
                let n = decimal(*frame_count);
                let mut text = String::from_str("Frame index ");
                text.append(i.as_str());
                text.append(" out of range (dataset has ");
                text.append(n.as_str());
                text.append(" frames)");
                text
            },
            ReaderError::NotOpen => String::from_str("No file open"),
        }
    }
}

} // verus!
