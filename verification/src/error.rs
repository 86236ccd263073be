//! The failures that an operation reports to its caller.

use vstd::prelude::*;

verus! {

/// A recoverable failure. Exhaustion of the native allocator is not among
/// them: it is fatal, and the functions that take an allocator's answer
/// leave a null answer to a non-empty request out of their inputs.
#[derive(Debug, PartialEq, Eq)]
pub enum Error {
    /// The codec signalled a failure; the text is the codec's own message,
    /// unchanged.
    TurboJpegError(String),
    /// A value of the named field does not fit the codec's integer type.
    IntegerOverflow(&'static str),
    /// The codec signalled success and handed back the null address.
    Null,
}

} // verus!
