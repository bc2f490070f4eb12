//! The transfer handle: one operation of the engine on a lent buffer.

use vstd::prelude::*;

use crate::barrier::Fence;
use crate::buffer::{Pinned, Region};
use crate::channel::{polls, Access, ChannelModel};
use crate::serial::{Serial1, SerialModel};

verus! {

/// What a transfer holds: the lent buffer and the port with its channel.
pub struct TransferModel {
    pub buffer: Region,
    pub serial: SerialModel,
}

impl TransferModel {
    pub open spec fn channel(self) -> ChannelModel {
        self.serial.channel
    }

    /// Whether the engine moves bytes from the port into the buffer (else
    /// from the buffer to the port).
    pub open spec fn reading(self) -> bool {
        !self.channel().source_increment
    }

    /// How many bytes the engine has moved.
    pub open spec fn moved(self) -> int {
        self.channel().length - self.channel().remaining
    }

    /// The channel is running and set to move the whole buffer between the
    /// memory and the port's data register.
    pub open spec fn configured(self) -> bool {
        let c = self.channel();
        &&& c.enabled
        &&& c.length == self.buffer.bytes.len()
        &&& c.remaining <= c.length
        &&& if self.reading() {
            &&& c.source == self.serial.rx_register
            &&& c.destination == self.buffer.address
            &&& c.destination_increment
        } else {
            &&& c.source == self.buffer.address
            &&& c.destination == self.serial.tx_register
            &&& !c.destination_increment
        }
    }

    /// Whether the port has enough bytes for the engine to finish.
    pub open spec fn can_finish(self) -> bool {
        !self.reading() || self.serial.incoming.len() >= self.channel().remaining
    }

    /// The same, with the channel `c`.
    pub open spec fn with_channel(self, c: ChannelModel) -> TransferModel {
        TransferModel { serial: SerialModel { channel: c, ..self.serial }, ..self }
    }

    /// One beat of the engine: it moves the next byte, if it runs and, when
    /// reading, a byte has arrived.
    pub open spec fn beat(self) -> TransferModel {
        let c = self.channel();
        let counted = ChannelModel { remaining: (c.remaining - 1) as usize, ..c };
        if !c.busy() {
            self
        } else if self.reading() {
            if self.serial.incoming.len() == 0 {
                self
            } else {
                TransferModel {
                    buffer: Region {
                        bytes: self.buffer.bytes.update(self.moved(), self.serial.incoming[0]),
                        ..self.buffer
                    },
                    serial: SerialModel {
                        channel: counted,
                        incoming: self.serial.incoming.drop_first(),
                        ..self.serial
                    },
                }
            }
        } else {
            TransferModel {
                buffer: self.buffer,
                serial: SerialModel {
                    channel: counted,
                    sent: self.serial.sent.push(self.buffer.bytes[self.moved()]),
                    ..self.serial
                },
            }
        }
    }

    /// The state after `k` beats that each moved a byte.
    pub open spec fn advanced(self, k: int) -> TransferModel {
        let c = self.channel();
        let m = self.moved();
        let counted = ChannelModel { remaining: (c.remaining - k) as usize, ..c };
        if self.reading() {
            TransferModel {
                buffer: Region {
                    bytes: self.buffer.bytes.subrange(0, m) + self.serial.incoming.subrange(0, k)
                        + self.buffer.bytes.subrange(m + k, self.buffer.bytes.len() as int),
                    ..self.buffer
                },
                serial: SerialModel {
                    channel: counted,
                    incoming: self.serial.incoming.subrange(k, self.serial.incoming.len() as int),
                    ..self.serial
                },
            }
        } else {
            TransferModel {
                buffer: self.buffer,
                serial: SerialModel {
                    channel: counted,
                    sent: self.serial.sent + self.buffer.bytes.subrange(m, m + k),
                    ..self.serial
                },
            }
        }
    }

    /// What `wait` hands back: the engine has moved every byte, the CPU has
    /// read the status once per beat and once more, then placed an acquire
    /// barrier.
    pub open spec fn completion(self) -> (Region, SerialModel) {
        let r = self.channel().remaining as int;
        let done = self.advanced(r);
        (
            done.buffer,
            SerialModel {
                channel: done.channel().polled((r + 1) as nat).record(
                    Access::Barrier { fence: Fence::Acquire },
                ),
                ..done.serial
            },
        )
    }

    /// What `cancel` hands back: the buffer as the engine left it, and the
    /// port with its channel torn down.
    pub open spec fn cancellation(self) -> (Region, SerialModel) {
        (self.buffer, SerialModel { channel: self.channel().torn_down(), ..self.serial })
    }
}

pub(crate) struct Inner {
    pub(crate) buffer: Pinned,
    pub(crate) serial: Serial1,
}

impl Inner {
    pub(crate) open spec fn model(&self) -> TransferModel {
        TransferModel { buffer: self.buffer@, serial: self.serial@ }
    }

    fn tick(&mut self)
        requires
            old(self).model().configured(),
        ensures
            final(self).model() == old(self).model().beat(),
    {
        let Some(i) = self.serial.dma.next_index() else {
            return;
        };
        if self.serial.dma.source_increments() {
            let byte = self.buffer.bytes[i];
            self.serial.sent.push(byte);
        } else {
            if self.serial.incoming.len() == 0 {
                return;
            }
            let byte = self.serial.incoming.remove(0);
            self.buffer.bytes.set(i, byte);
            proof {
                assert(self.serial.incoming@ =~= old(self).model().serial.incoming.drop_first());
            }
        }
        self.serial.dma.count_down();
    }
}

/// A transfer in progress, or just completed.
///
/// It owns the buffer and the port until `wait` or `cancel` hands them back;
/// one that is dropped before either stops the engine first.
pub struct Transfer {
    pub(crate) inner: Option<Inner>,
}

impl View for Transfer {
    type V = TransferModel;

    open(crate) spec fn view(&self) -> TransferModel {
        match self.inner {
            Some(inner) => inner.model(),
            None => arbitrary(),
        }
    }
}

impl Transfer {
    /// The transfer holds its buffer and port, and the channel is set to move them.
    pub open(crate) spec fn wf(&self) -> bool {
        &&& self.inner is Some
        &&& self@.configured()
    }

    /// Returns `true` once the engine has moved every byte: one poll of the
    /// status register. Its result orders nothing: only `wait` places the
    /// barrier after it.
    pub fn is_done(&mut self) -> (r: bool)
        requires
            old(self).wf(),
        ensures
            final(self).wf(),
            r == !old(self)@.channel().busy(),
            final(self)@ == old(self)@.with_channel(old(self)@.channel().polled(1)),
    {
        let Some(inner) = &mut self.inner else {
            return true;
        };
        let busy = inner.serial.dma.in_progress();
        proof {
            assert(inner.serial.dma@.history =~= old(self)@.channel().polled(1).history);
        }
        !busy
    }

    /// One beat of the engine, which runs beside the CPU.
    pub fn tick(&mut self)
        requires
            old(self).wf(),
        ensures
            final(self).wf(),
            final(self)@ == old(self)@.beat(),
    {
        if let Some(inner) = &mut self.inner {
            inner.tick();
        }
    }

    /// Polls until the engine is done, places an acquire barrier, and hands
    /// back the buffer and the port. The engine takes one beat between two
    /// polls; when reading, the port must have received enough bytes for it
    /// to finish.
    pub fn wait(self) -> (r: (Pinned, Serial1))
        requires
            self.wf(),
            self@.can_finish(),
        ensures
            (r.0@, r.1@) == self@.completion(),
    {
        let mut t = self;
        let ghost start = t@;
        let ghost left = start.channel().remaining as int;
        let ghost mut k: int = 0;
        proof {
            lemma_advanced_zero(start);
        }
        let mut done = t.is_done();
        while !done
            invariant
                t.wf(),
                start.configured(),
                start.can_finish(),
                left == start.channel().remaining,
                0 <= k <= left,
                t@ == start.advanced(k).with_channel(
                    start.advanced(k).channel().polled((k + 1) as nat),
                ),
                done == (k == left),
            decreases left - k,
        {
            t.tick();
            proof {
                lemma_beat_advances(start, k, (k + 1) as nat);
                lemma_polls_add(start.advanced(k + 1).channel(), (k + 1) as nat);
                k = k + 1;
            }
            done = t.is_done();
        }
        let mut inner = t.inner.take().unwrap();
        inner.serial.dma.barrier(Fence::Acquire);
        (inner.buffer, inner.serial)
    }

    /// Stops the engine before it is done: the stop, a dummy status read and
    /// an acquire barrier, then hands back the buffer as the engine left it
    /// and the port.
    pub fn cancel(self) -> (r: (Pinned, Serial1))
        requires
            self.wf(),
        ensures
            (r.0@, r.1@) == self@.cancellation(),
    {
        let mut t = self;
        let mut inner = t.inner.take().unwrap();
        inner.serial.dma.teardown();
        (inner.buffer, inner.serial)
    }
}

impl Drop for Transfer {
    /// A transfer dropped before `wait` or `cancel` stops the engine, reads
    /// the status once and places an acquire barrier, all before its buffer
    /// and port are released.
    fn drop(&mut self)
        ensures
            old(self).wf() ==> final(self)@ == old(self)@.with_channel(
                old(self)@.channel().torn_down(),
            ),
        opens_invariants none
        no_unwind
    {
        if let Some(inner) = &mut self.inner {
            inner.serial.dma.teardown();
        }
    }
}

/// Starting from a configured transfer with enough input, a beat after `k`
/// beats moves the next byte, whatever the CPU's polls added to the history.
proof fn lemma_beat_advances(t: TransferModel, k: int, n: nat)
    requires
        t.configured(),
        t.can_finish(),
        0 <= k < t.channel().remaining,
    ensures
        t.advanced(k).with_channel(t.advanced(k).channel().polled(n)).beat() == t.advanced(
            k + 1,
        ).with_channel(t.advanced(k + 1).channel().polled(n)),
{
    let a = t.advanced(k);
    let b = t.advanced(k + 1);
    let m = t.moved();
    assert(a.moved() == m + k);
    if t.reading() {
        assert(a.serial.incoming[0] == t.serial.incoming[k]);
        assert(a.buffer.bytes.update(m + k, t.serial.incoming[k]) =~= b.buffer.bytes);
        assert(a.serial.incoming.drop_first() =~= b.serial.incoming);
    } else {
        assert(a.serial.sent.push(t.buffer.bytes[m + k]) =~= b.serial.sent);
    }
}

/// No beat has moved anything yet.
proof fn lemma_advanced_zero(t: TransferModel)
    requires
        t.configured(),
    ensures
        t.advanced(0) == t,
{
    let m = t.moved();
    if t.reading() {
        assert(t.buffer.bytes.subrange(0, m) + t.serial.incoming.subrange(0, 0)
            + t.buffer.bytes.subrange(m, t.buffer.bytes.len() as int) =~= t.buffer.bytes);
        assert(t.serial.incoming.subrange(0, t.serial.incoming.len() as int) =~= t.serial.incoming);
    } else {
        assert(t.serial.sent + t.buffer.bytes.subrange(m, m) =~= t.serial.sent);
    }
}

/// Two runs of polls in a row are one run.
proof fn lemma_polls_add(c: ChannelModel, n: nat)
    ensures
        c.polled(n).polled(1) == c.polled(n + 1),
{
    assert(c.history + polls(n) + polls(1) =~= c.history + polls(n + 1));
}

} // verus!
