//! What a device answers when the memory bus hands it an access.

use vstd::prelude::*;

verus! {

/// The answer of a device to a read of the bus.
#[derive(Clone, Copy, Debug, PartialEq, Eq, Structural)]
pub enum MemRead {
    /// The device supplies this byte.
    Replace(u8),
    /// The device does not handle the address; the bus reads on.
    PassThrough,
}

/// The answer of a device to a write on the bus.
#[derive(Clone, Copy, Debug, PartialEq, Eq, Structural)]
pub enum MemWrite {
    /// The device does not handle the address; the bus writes on.
    PassThrough,
    /// The device consumed the write; nothing else sees it.
    Block,
}

} // verus!
