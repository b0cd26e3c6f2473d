//! The ways in which encoding and decoding can fail.

use vstd::prelude::*;

verus! {

/// Why bytes could not be turned into a value, or a value into bytes: the
/// failures that `casper_types::bytesrepr::Error` tells apart. Decoding an
/// address ends in the first two; the others are here so that every failure
/// of the storage layer has its counterpart.
#[derive(PartialEq, Eq, Structural, Clone, Copy, Debug)]
pub enum Error {
    /// The input ended before the value was complete.
    EarlyEndOfStream,
    /// The input does not have the form of the value asked for.
    Formatting,
    /// Input was left over where all of it had to be used.
    LeftOverBytes,
    /// The encoded form would not fit in memory.
    OutOfMemory,
    /// The value nests deeper than the format allows.
    ExceededRecursionDepth,
}

} // verus!
