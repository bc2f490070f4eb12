//! Sinks for log messages, identified by the address of an interned string.

use vstd::prelude::*;

verus! {

/// A sink that a caller writes to through an exclusive reference.
pub trait Log {
    type Error;

    /// Writes the address of one interned message.
    fn log(&mut self, address: u8) -> Result<(), Self::Error>;
}

/// A sink shared by the whole program, which serialises its own writes.
pub trait GlobalLog: Sync {
    /// Writes the address of one interned message.
    fn log(&self, address: u8);
}

} // verus!
