//! Buffers whose memory stays at one address while they are held.

use vstd::prelude::*;

verus! {

/// What a pinned buffer holds: where the engine finds it, and its bytes.
pub struct Region {
    pub address: usize,
    pub bytes: Seq<u8>,
}

/// An owned buffer of bytes that the engine may be lent.
///
/// The bytes live in a heap allocation that moving the wrapper does not move,
/// and that is freed only when the wrapper is given up: its address is fixed
/// for as long as the wrapper lives. `address` is where the engine sees it on
/// the bus.
pub struct Pinned {
    pub(crate) address: usize,
    pub(crate) bytes: Vec<u8>,
}

impl View for Pinned {
    type V = Region;

    open(crate) spec fn view(&self) -> Region {
        Region { address: self.address, bytes: self.bytes@ }
    }
}

impl Pinned {
    /// Pins `bytes`, which the engine sees at `address`.
    pub fn new(bytes: Vec<u8>, address: usize) -> (p: Pinned)
        ensures
            p@ == (Region { address, bytes: bytes@ }),
    {
        Pinned { address, bytes }
    }

    /// The bus address of the first byte.
    pub fn address(&self) -> (r: usize)
        ensures
            r == self@.address,
    {
        self.address
    }

    /// The number of bytes.
    pub fn len(&self) -> (r: usize)
        ensures
            r == self@.bytes.len(),
    {
        self.bytes.len()
    }

    /// The bytes, for reading while no transfer holds the buffer.
    pub fn bytes(&self) -> (r: &Vec<u8>)
        ensures
            r@ == self@.bytes,
    {
        &self.bytes
    }

    /// Gives up the pin and returns the bytes.
    pub fn into_inner(self) -> (r: Vec<u8>)
        ensures
            r@ == self@.bytes,
    {
        self.bytes
    }
}

} // verus!
