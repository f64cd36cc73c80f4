//! The buffers that the program writes once: that of the first texels and that of the quad.
use vstd::prelude::*;

verus! {

/// What a buffer is used for.
#[derive(Clone, Copy, Debug, PartialEq, Eq, Structural)]
pub enum BufferUsage {
    /// It is the source of a transfer.
    TransferSrc,
    /// It holds vertices.
    VertexBuffer,
}

/// Where a buffer had best lie.
#[derive(Clone, Copy, Debug, PartialEq, Eq, Structural)]
pub enum MemoryPreference {
    Host,
    Device,
}

/// What a buffer is created as.
#[derive(Clone, Copy, Debug, PartialEq, Eq, Structural)]
pub struct BufferSpec {
    pub usage: BufferUsage,
    pub memory: MemoryPreference,
    /// Whether the program writes the buffer, from its start to its end.
    pub host_sequential_write: bool,
    /// The number of bytes.
    pub size: u64,
}

} // verus!
