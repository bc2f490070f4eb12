//! A DMA transfer abstraction in which ownership carries the protocol.
//!
//! A [`Serial1`] port owns the single [`Dma1Channel1`]. Starting a transfer
//! consumes both the port and a [`Pinned`] buffer and yields a [`Transfer`],
//! which alone can poll, wait for or cancel the operation. The buffer and the
//! port come back only through [`Transfer::wait`] or [`Transfer::cancel`],
//! after an acquire barrier; a transfer that is dropped stops the engine first.
//!
//! The channel and the port are models of the hardware: their registers are
//! plain fields, and the engine moves one byte per beat ([`Transfer::tick`]).
//! Each channel keeps a ghost history of the CPU's bus accesses and barriers,
//! over which the contracts state the ordering discipline.

pub mod barrier;
pub mod buffer;
pub mod channel;
pub mod log;
pub mod protocol;
pub mod serial;
pub mod transfer;

pub use barrier::{fence, Fence};
pub use buffer::{Pinned, Region};
pub use channel::{Access, ChannelModel, Dma1Channel1};
pub use log::{GlobalLog, Log};
pub use serial::{Error, Serial1, SerialModel, USART1_RX, USART1_TX};
pub use transfer::{Transfer, TransferModel};
