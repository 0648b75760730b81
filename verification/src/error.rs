//! The ways in which reading and writing can fail.

use vstd::prelude::*;

verus! {

/// Why a value could not be read.
#[derive(Clone, Copy, Debug, PartialEq, Eq, Structural)]
pub enum ReadError {
    /// Fewer bytes were left in the source than the next read needed.
    BufferUnderrun,
    /// A tag was read that no case of the type being read carries. The raw
    /// tag is kept.
    UnrecognizedDiscriminant(usize),
}

/// Why a value could not be written.
#[derive(Clone, Copy, Debug, PartialEq, Eq, Structural)]
pub enum WriteError {
    /// The sink has no room left for the bytes of the value.
    SinkExhausted,
}

/// Why a value of a definition could not be written or read.
#[derive(Clone, Copy, Debug, PartialEq, Eq, Structural)]
pub enum MessageError {
    /// The definition cannot be laid out.
    Definition,
    /// The value is not a value of the definition.
    Value,
    /// The value could not be written.
    Write(WriteError),
    /// No value could be read.
    Read(ReadError),
}

} // verus!
