//! The active-file slot: at most one open reader, replaced as a whole.

use vstd::prelude::*;
use crate::error::ReaderError;

verus! {

/// The slot that holds the reader of the active file, if any. Whoever holds
/// the slot exclusively may replace the reader; everyone else sees either
/// the reader before or the reader after, never a mixture.
pub struct Registry<R> {
    current: Option<R>,
}

impl<R> View for Registry<R> {
    type V = Option<R>;

    closed spec fn view(&self) -> Option<R> {
        self.current
    }
}

/// The reader that is active after an attempt to open a file: the one that
/// was opened, or else the one that was active before.
pub open spec fn active_after<R>(before: Option<R>, opened: Result<(R, usize), ReaderError>)
    -> Option<R> {
    match opened {
        Ok((reader, _)) => Some(reader),
        Err(_) => before,
    }
}

impl<R> Registry<R> {
    /// The slot as it is when the process starts: empty.
    pub fn new() -> (registry: Registry<R>)
        ensures
            registry@ is None,
    {
        Registry { current: None }
    }

    /// Whether a file is active.
    pub fn is_open(&self) -> (open: bool)
        ensures
            open == (self@ is Some),
    {
        self.current.is_some()
    }

    /// Makes `reader` the active reader. A reader that was active before is
    /// dropped and can no longer be reached through the slot.
    pub fn install(&mut self, reader: R)
        ensures
            final(self)@ == Some(reader),
    {
        self.current = Some(reader);
    }

    /// The active reader, borrowed for as long as the slot is.
    pub(crate) fn current(&self) -> (r: Option<&R>)
        ensures
            match r {
                Some(reader) => self@ == Some(*reader),
                None => self@ is None,
            },
    {
        self.current.as_ref()
    }

    /// Runs `f` on the active reader and hands back what it returns, or
    /// reports that no file is open.
    pub fn with_current<T, F: FnOnce(&R) -> T>(&self, f: F) -> (r: Result<T, ReaderError>)
        requires
            self@ matches Some(reader) ==> f.requires((&reader,)),
        ensures
            match self@ {
                Some(reader) => r matches Ok(t) && f.ensures((&reader,), t),
                None => r == Err::<T, ReaderError>(ReaderError::NotOpen),
            },
    {
        match &self.current {
            Some(reader) => Ok(f(reader)),
            None => Err(ReaderError::NotOpen),
        }
    }
}

} // verus!
