//! The type code of a chunk in a PNG file, with its text form, its four
//! classification bits, and the errors that the chunk layer reports.
use vstd::prelude::*;

pub mod chunk_type;
pub mod events;

pub use chunk_type::ChunkType;
pub use events::Error;

verus! {

} // verus!
