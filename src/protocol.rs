//! Properties of the transfer protocol, proved over the models.

use vstd::prelude::*;

use crate::barrier::Fence;
use crate::buffer::Region;
use crate::channel::{polls, Access};
use crate::serial::SerialModel;
use crate::transfer::TransferModel;

verus! {

/// Over a whole read or write, from the start to what `wait` hands back, the
/// CPU touches the channel in this order only: the three configuration
/// writes, a release barrier, the start, status reads, and an acquire
/// barrier last, and the last status read found the engine idle. Between
/// the start and that barrier the CPU reads nothing but the status register:
/// the buffer belongs to the transfer, which offers no access to it, and
/// comes back only with `wait`'s result, after the barrier.
pub proof fn barriers_bracket_transfer(s: SerialModel, b: Region)
    requires
        b.bytes.len() <= usize::MAX,
    ensures
        s.started_read(b).completion().1.channel.history == s.channel.history + seq![
            Access::Source { address: s.rx_register, increment: false },
            Access::Destination { address: b.address, increment: true },
            Access::Length { len: b.bytes.len() as usize },
            Access::Barrier { fence: Fence::Release },
            Access::Start,
        ] + polls(b.bytes.len() + 1) + seq![Access::Barrier { fence: Fence::Acquire }],
        s.started_write(b).completion().1.channel.history == s.channel.history + seq![
            Access::Destination { address: s.tx_register, increment: false },
            Access::Source { address: b.address, increment: true },
            Access::Length { len: b.bytes.len() as usize },
            Access::Barrier { fence: Fence::Release },
            Access::Start,
        ] + polls(b.bytes.len() + 1) + seq![Access::Barrier { fence: Fence::Acquire }],
        !s.started_read(b).completion().1.channel.busy(),
        !s.started_write(b).completion().1.channel.busy(),
{
    let n = b.bytes.len() as usize;
    let r = s.started_read(b);
    assert(r.completion().1.channel.history =~= s.channel.history + seq![
        Access::Source { address: s.rx_register, increment: false },
        Access::Destination { address: b.address, increment: true },
        Access::Length { len: n },
        Access::Barrier { fence: Fence::Release },
        Access::Start,
    ] + polls((n + 1) as nat) + seq![Access::Barrier { fence: Fence::Acquire }]);
    let w = s.started_write(b);
    assert(w.completion().1.channel.history =~= s.channel.history + seq![
        Access::Destination { address: s.tx_register, increment: false },
        Access::Source { address: b.address, increment: true },
        Access::Length { len: n },
        Access::Barrier { fence: Fence::Release },
        Access::Start,
    ] + polls((n + 1) as nat) + seq![Access::Barrier { fence: Fence::Acquire }]);
}

/// Waiting on a write hands back the buffer as it was, the port having sent
/// exactly its bytes, and a port whose engine is idle, ready for the next
/// transfer.
pub proof fn write_round_trip(s: SerialModel, b: Region)
    requires
        b.bytes.len() <= usize::MAX,
    ensures
        s.started_write(b).completion().0 == b,
        s.started_write(b).completion().1.sent == s.sent + b.bytes,
        s.started_write(b).completion().1.incoming == s.incoming,
        s.started_write(b).completion().1.tx_register == s.tx_register,
        s.started_write(b).completion().1.rx_register == s.rx_register,
        !s.started_write(b).completion().1.channel.busy(),
{
    let t = s.started_write(b);
    assert(t.moved() == 0);
    assert(b.bytes.subrange(0, b.bytes.len() as int) =~= b.bytes);
}

/// Waiting on a read hands back the buffer, at its address, holding exactly
/// the first bytes that arrived on the line, as many as it is long; the port
/// keeps the rest, and its engine is idle.
pub proof fn read_fills_buffer(s: SerialModel, b: Region)
    requires
        b.bytes.len() <= usize::MAX,
        s.incoming.len() >= b.bytes.len(),
    ensures
        s.started_read(b).can_finish(),
        s.started_read(b).completion().0 == (Region {
            address: b.address,
            bytes: s.incoming.subrange(0, b.bytes.len() as int),
        }),
        s.started_read(b).completion().1.incoming == s.incoming.subrange(
            b.bytes.len() as int,
            s.incoming.len() as int,
        ),
        s.started_read(b).completion().1.sent == s.sent,
        !s.started_read(b).completion().1.channel.busy(),
{
    let t = s.started_read(b);
    let n = b.bytes.len() as int;
    assert(t.moved() == 0);
    assert(b.bytes.subrange(0, 0) + s.incoming.subrange(0, n) + b.bytes.subrange(n, n)
        =~= s.incoming.subrange(0, n));
}

/// A transfer ended before it is done, by `cancel` or by being dropped,
/// stops the engine, reads the status once and places an acquire barrier
/// before the buffer is released; after that the engine moves nothing more
/// into or out of the buffer. The drop hook leaves the transfer in the state
/// that `cancel` hands back.
pub proof fn teardown_stops_engine(t: TransferModel)
    requires
        t.configured(),
    ensures
        t.cancellation().0 == t.buffer,
        t.cancellation().1.channel.history == t.channel().history + seq![
            Access::Stop,
            Access::Status,
            Access::Barrier { fence: Fence::Acquire },
        ],
        !t.cancellation().1.channel.busy(),
        t.with_channel(t.channel().torn_down()) == (TransferModel {
            buffer: t.cancellation().0,
            serial: t.cancellation().1,
        }),
        (TransferModel { buffer: t.cancellation().0, serial: t.cancellation().1 }).beat() == (
        TransferModel { buffer: t.cancellation().0, serial: t.cancellation().1 }),
{
    assert(t.cancellation().1.channel.history =~= t.channel().history + seq![
        Access::Stop,
        Access::Status,
        Access::Barrier { fence: Fence::Acquire },
    ]);
}

} // verus!
