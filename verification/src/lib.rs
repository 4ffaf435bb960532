//! Detector-image decoding for NeXus/HDF5 diffraction files.
//!
//! The library holds the rules by which a NeXus image stack is turned into
//! canonical 16-bit frames and a unit-tagged metadata record, the single slot
//! that holds the active reader, and the replies of the request server. It
//! performs no input or output: callers read the file and hand over what they
//! found as plain values.

pub mod commands;
pub mod error;
pub mod frame;
pub mod metadata;
pub mod pixel;
pub mod readers;
pub mod registry;
pub mod server;
pub mod units;
