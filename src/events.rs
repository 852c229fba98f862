use vstd::prelude::*;

verus! {

/// The failures that the chunk layer reports. Each variant carries the context
/// needed to describe the failure without going back to the input.
#[derive(Debug)]
pub enum Error {
    Unknown,
    /// A chunk type name whose length in bytes is not four.
    InvalidStringLength(String),
    /// A chunk type name with a byte outside `A`-`Z` and `a`-`z`.
    InvalidStringCharacter(String),
    /// A raw chunk source shorter than the smallest possible chunk.
    ChunkSourceArrayTooShort(usize),
    ChunkLengthMismatch,
    InvalidChunkChecksum,
    InvalidMagicNumber,
    ChunkNotFound,
    NotEnoughData,
}

} // verus!
