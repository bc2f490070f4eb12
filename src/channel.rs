//! The hardware channel: one DMA engine and its control registers.

use vstd::prelude::*;

use crate::barrier::{fence, Fence};

verus! {

/// One access of the CPU to the channel, in the order the engine observes them.
#[derive(Clone, Copy, Debug, PartialEq, Eq, Structural)]
pub enum Access {
    /// A write of the source address register.
    Source { address: usize, increment: bool },
    /// A write of the destination address register.
    Destination { address: usize, increment: bool },
    /// A write of the transfer length register.
    Length { len: usize },
    /// A write that sets the enable bit.
    Start,
    /// A write that clears the enable bit.
    Stop,
    /// A read of the status register; on the device it is a volatile read,
    /// here it is modelled by this entry.
    Status,
    /// A compiler barrier placed between two accesses.
    Barrier { fence: Fence },
}

/// `n` reads of the status register in a row.
pub open spec fn polls(n: nat) -> Seq<Access> {
    Seq::new(n, |i: int| Access::Status)
}

/// The registers of a channel together with the history of the CPU's accesses.
pub struct ChannelModel {
    pub source: usize,
    pub source_increment: bool,
    pub destination: usize,
    pub destination_increment: bool,
    /// The length register, as last written.
    pub length: usize,
    /// The engine's down-counter: bytes still to move.
    pub remaining: usize,
    /// The enable bit.
    pub enabled: bool,
    pub history: Seq<Access>,
}

impl ChannelModel {
    /// A channel as it comes out of reset.
    pub open spec fn reset() -> ChannelModel {
        ChannelModel {
            source: 0,
            source_increment: false,
            destination: 0,
            destination_increment: false,
            length: 0,
            remaining: 0,
            enabled: false,
            history: Seq::empty(),
        }
    }

    /// The same registers, with one more access in the history.
    pub open spec fn record(self, a: Access) -> ChannelModel {
        ChannelModel { history: self.history.push(a), ..self }
    }

    /// The registers after a write of the source address register.
    pub open spec fn with_source(self, address: usize, increment: bool) -> ChannelModel {
        ChannelModel { source: address, source_increment: increment, ..self }.record(
            Access::Source { address, increment },
        )
    }

    /// The registers after a write of the destination address register.
    pub open spec fn with_destination(self, address: usize, increment: bool) -> ChannelModel {
        ChannelModel { destination: address, destination_increment: increment, ..self }.record(
            Access::Destination { address, increment },
        )
    }

    /// The registers after a write of the length register.
    pub open spec fn with_length(self, len: usize) -> ChannelModel {
        ChannelModel { length: len, ..self }.record(Access::Length { len })
    }

    /// The same registers, after `n` more reads of the status register.
    pub open spec fn polled(self, n: nat) -> ChannelModel {
        ChannelModel { history: self.history + polls(n), ..self }
    }

    /// Whether the engine is running: enabled with bytes left to move.
    pub open spec fn busy(self) -> bool {
        self.enabled && self.remaining > 0
    }

    /// The registers once the engine has been started.
    pub open spec fn started(self) -> ChannelModel {
        ChannelModel { enabled: true, remaining: self.length, ..self }.record(Access::Start)
    }

    /// The registers after the teardown sequence: stop, a dummy status read,
    /// then an acquire barrier.
    pub open spec fn torn_down(self) -> ChannelModel {
        ChannelModel { enabled: false, ..self }.record(Access::Stop).record(Access::Status).record(
            Access::Barrier { fence: Fence::Acquire },
        )
    }
}

/// The channel 1 of DMA controller 1.
///
/// Whoever holds this value has exclusive access to the channel's registers.
pub struct Dma1Channel1 {
    pub(crate) source: usize,
    pub(crate) source_increment: bool,
    pub(crate) destination: usize,
    pub(crate) destination_increment: bool,
    pub(crate) length: usize,
    pub(crate) remaining: usize,
    pub(crate) enabled: bool,
    pub(crate) history: Ghost<Seq<Access>>,
}

impl View for Dma1Channel1 {
    type V = ChannelModel;

    open(crate) spec fn view(&self) -> ChannelModel {
        ChannelModel {
            source: self.source,
            source_increment: self.source_increment,
            destination: self.destination,
            destination_increment: self.destination_increment,
            length: self.length,
            remaining: self.remaining,
            enabled: self.enabled,
            history: self.history@,
        }
    }
}

impl Dma1Channel1 {
    /// The channel at reset: every register zero and the engine stopped.
    pub fn new() -> (c: Dma1Channel1)
        ensures
            c@ == ChannelModel::reset(),
    {
        Dma1Channel1 {
            source: 0,
            source_increment: false,
            destination: 0,
            destination_increment: false,
            length: 0,
            remaining: 0,
            enabled: false,
            history: Ghost(Seq::empty()),
        }
    }

    /// Data will be written to `address`; `inc` makes the address advance
    /// after every byte.
    pub fn set_destination_address(&mut self, address: usize, inc: bool)
        ensures
            final(self)@ == old(self)@.with_destination(address, inc),
    {
        self.destination = address;
        self.destination_increment = inc;
        self.history = Ghost(self.history@.push(Access::Destination { address, increment: inc }));
    }

    /// Data will be read from `address`; `inc` makes the address advance
    /// after every byte.
    pub fn set_source_address(&mut self, address: usize, inc: bool)
        ensures
            final(self)@ == old(self)@.with_source(address, inc),
    {
        self.source = address;
        self.source_increment = inc;
        self.history = Ghost(self.history@.push(Access::Source { address, increment: inc }));
    }

    /// Number of bytes to transfer.
    pub fn set_transfer_length(&mut self, len: usize)
        ensures
            final(self)@ == old(self)@.with_length(len),
    {
        self.length = len;
        self.history = Ghost(self.history@.push(Access::Length { len }));
    }

    /// Starts the transfer: the engine loads its counter from the length register.
    pub fn start(&mut self)
        ensures
            final(self)@ == old(self)@.started(),
    {
        self.enabled = true;
        self.remaining = self.length;
        self.history = Ghost(self.history@.push(Access::Start));
    }

    /// Stops the transfer: the engine moves no more bytes.
    pub fn stop(&mut self)
        ensures
            final(self)@ == (ChannelModel { enabled: false, ..old(self)@ }).record(Access::Stop),
        opens_invariants none
        no_unwind
    {
        self.enabled = false;
        self.history = Ghost(self.history@.push(Access::Stop));
    }

    /// Returns `true` while a transfer is in progress. This models the
    /// volatile read of the status register: the field read stands for it, and
    /// the history records it as `Access::Status`.
    pub fn in_progress(&mut self) -> (r: bool)
        ensures
            r == old(self)@.busy(),
            final(self)@ == old(self)@.record(Access::Status),
        opens_invariants none
        no_unwind
    {
        self.history = Ghost(self.history@.push(Access::Status));
        self.enabled && self.remaining > 0
    }

    /// Emits a barrier between the accesses before and after it.
    pub fn barrier(&mut self, f: Fence)
        ensures
            final(self)@ == old(self)@.record(Access::Barrier { fence: f }),
        opens_invariants none
        no_unwind
    {
        fence(f);
        self.history = Ghost(self.history@.push(Access::Barrier { fence: f }));
    }

    /// Stops the engine and orders every later access after the stop: the
    /// stop, one dummy status read, then an acquire barrier. On the device the
    /// dummy read is volatile and gives the barrier a memory access to order
    /// against; here it is the modelled read of `in_progress`, recorded in the
    /// history.
    pub fn teardown(&mut self)
        ensures
            final(self)@ == old(self)@.torn_down(),
        opens_invariants none
        no_unwind
    {
        self.stop();
        let _ = self.in_progress();
        self.barrier(Fence::Acquire);
    }

    /// Whether the enable bit is set.
    pub fn is_enabled(&self) -> (r: bool)
        ensures
            r == self@.enabled,
    {
        self.enabled
    }

    /// The index of the next byte the engine moves, if it runs.
    pub(crate) fn next_index(&self) -> (r: Option<usize>)
        requires
            self@.remaining <= self@.length,
        ensures
            r == (if self@.busy() {
                Some((self@.length - self@.remaining) as usize)
            } else {
                None::<usize>
            }),
    {
        if self.enabled && self.remaining > 0 {
            Some(self.length - self.remaining)
        } else {
            None
        }
    }

    /// Whether the source address advances, that is whether the engine reads memory.
    pub(crate) fn source_increments(&self) -> (r: bool)
        ensures
            r == self@.source_increment,
    {
        self.source_increment
    }

    /// The engine moves one byte: its counter goes down by one.
    pub(crate) fn count_down(&mut self)
        requires
            old(self)@.busy(),
        ensures
            final(self)@ == (ChannelModel {
                remaining: (old(self)@.remaining - 1) as usize,
                ..old(self)@
            }),
    {
        self.remaining = self.remaining - 1;
    }
}

} // verus!
