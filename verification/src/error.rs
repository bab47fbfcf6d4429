//! Why an inference failed.

use vstd::prelude::*;
use arrow::error::ArrowError;

verus! {

/// An error of schema or statistics inference. Each of them makes the
/// metadata of the file or table at hand unusable: no partial result is
/// returned beside it.
#[derive(Debug)]
pub enum FormatError {
    /// The reader could not hand out a byte range that was asked for; the
    /// text is the reader's message.
    Io(String),
    /// A file's footer could not be decoded; the text is the decoder's
    /// message.
    Decode(String),
    /// Two files declare a field of the same name in ways that cannot be
    /// reconciled; the error is Arrow's.
    Merge(ArrowError),
}

} // verus!
