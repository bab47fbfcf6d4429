//! The bookkeeping of the reader that hands the footer decoder its bytes.

use vstd::prelude::*;
use crate::error::FormatError;

verus! {

/// What is kept of a file while its footer is decoded: the file's length
/// and, where the scan volume is metered, the number of bytes that were
/// handed out so far.
///
/// The reading itself is the work of the object reader that the caller
/// holds; each of its answers is passed through `get_read`.
#[derive(Clone, Copy, Debug, PartialEq, Eq)]
pub struct ChunkObjectReader {
    /// The length of the file in bytes, as the object reader tells it.
    pub length: u64,
    /// The bytes scanned so far; `None` where they are not counted.
    pub bytes_scanned: Option<usize>,
}

impl ChunkObjectReader {
    /// The bytes scanned once a read of `length` bytes has succeeded.
    pub open spec fn scanned_after(self, length: usize) -> Option<usize> {
        match self.bytes_scanned {
            Some(scanned) => Some((scanned + length) as usize),
            None => None,
        }
    }

    /// Whether a read of `length` bytes can still be counted.
    pub open spec fn can_count(self, length: usize) -> bool {
        self.bytes_scanned matches Some(scanned) ==> scanned + length <= usize::MAX
    }

    /// The length of the file in bytes.
    pub fn len(&self) -> (length: u64)
        ensures
            length == self.length,
    {
        self.length
    }

    /// Whether a read of `length` bytes can still be counted: it can where
    /// nothing is counted, and where the count stays within `usize`.
    pub fn has_room_for(&self, length: usize) -> (room: bool)
        ensures
            room == self.can_count(length),
    {
        match self.bytes_scanned {
            Some(scanned) => length <= usize::MAX - scanned,
            None => true,
        }
    }

    /// Takes the object reader's answer to the request for `length` bytes.
    ///
    /// What was read is handed on as it is, and the bytes scanned grow by
    /// exactly `length`, the number of bytes asked for. A failure of the
    /// object reader is never swallowed: it is handed on as a decode error
    /// with the object reader's message, and counts nothing.
    pub fn get_read<T>(&mut self, length: usize, read: Result<T, String>) -> (outcome: Result<
        T,
        FormatError,
    >)
        requires
            read is Ok ==> old(self).can_count(length),
        ensures
            final(self).length == old(self).length,
            match read {
                Ok(bytes) => {
                    &&& outcome matches Ok(handed) && handed == bytes
                    &&& final(self).bytes_scanned == old(self).scanned_after(length)
                },
                Err(message) => {
                    &&& outcome matches Err(FormatError::Decode(text)) && text == message
                    &&& final(self).bytes_scanned == old(self).bytes_scanned
                },
            },
    {
        match read {
            Ok(bytes) => {
                if let Some(scanned) = self.bytes_scanned {
                    self.bytes_scanned = Some(scanned + length);
                }
                Ok(bytes)
            },
            Err(message) => Err(FormatError::Decode(message)),
        }
    }
}

} // verus!
