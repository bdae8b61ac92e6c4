//! The typed failures shared by every codec in this crate.
//!
//! Structural errors (malformed counts, ranges past the end of the buffer,
//! zero-length mandatory fields) are unrecoverable for the enclosing
//! structure and propagate to the caller of the decode call; no partial
//! structure is returned.

use vstd::prelude::*;

verus! {

/// A decode failure. Every variant carries the values that caused it.
#[derive(Debug, Clone, Copy, PartialEq, Eq, Structural)]
pub enum DatError {
    /// A read or write range `[requested_index, requested_index + len)`
    /// fell outside the buffer.
    OutOfRange { buffer_length: usize, requested_index: usize },
    /// An event header's block count was zero or above the allowed maximum.
    InvalidBlockCount { count: u32 },
    /// An event header listed a block of size zero.
    InvalidBlockSize { size: u32 },
    /// An event block's data size was zero or larger than the rest of the
    /// buffer.
    InvalidEventDataSize { size: u32 },
    /// An event series started after its own end offset, or its end offset
    /// pointed past the end of the buffer. The field holds the series'
    /// start position.
    InvalidSeriesBounds { start: usize },
    /// A chunk's packed type/length word encoded a negative byte length.
    InvalidChunkLength { packed: u32 },
    /// A chunk's four-character tag was not valid UTF-8 text. The field
    /// holds the four tag bytes packed little-endian.
    InvalidTag { tag_word: u32 },
    /// A vertex-model block declared an implausible model count.
    CorruptMmbModelCount { count: u32 },
    /// A vertex-model header's piece count did not match its offset list.
    MismatchedMmbOffsets { pieces: u32, found: usize },
    /// A zone-model header's mesh offset pointed past the end of the data.
    InvalidMeshOffset { mesh_offset: u32, data_len: u32 },
    /// A mesh entry's array offsets were decreasing, or their delta was not
    /// a whole number of twelve-byte points: a data-corruption signal.
    InvalidGeometryOffsets { first: u32, second: u32 },
    /// A zone container held no zone-model chunk.
    NoZoneModel,
}

} // verus!
