//! The serial port: the device handle that owns the DMA channel.

use vstd::prelude::*;

use crate::barrier::Fence;
use crate::buffer::{Pinned, Region};
use crate::channel::{Access, ChannelModel, Dma1Channel1};
use crate::transfer::{Inner, Transfer, TransferModel};

verus! {

/// The address of the transmit data register of USART1.
pub const USART1_TX: usize = 0x4000_0000;

/// The address of the receive data register of USART1.
pub const USART1_RX: usize = 0x4000_0004;

/// An error of the serial port.
#[derive(Clone, Copy, Debug, PartialEq, Eq, Structural)]
pub enum Error {
    /// A byte arrived before the previous one was read. This model keeps
    /// every byte that arrives, so it never reports one.
    Overrun,
}

/// What a serial port holds: its channel, its data registers, the bytes that
/// arrived and are not read yet, and the bytes sent so far.
pub struct SerialModel {
    pub channel: ChannelModel,
    pub tx_register: usize,
    pub rx_register: usize,
    pub incoming: Seq<u8>,
    pub sent: Seq<u8>,
}

impl SerialModel {
    /// The transfer that `start_read` makes of this port and `buffer`.
    pub open spec fn started_read(self, buffer: Region) -> TransferModel {
        TransferModel {
            buffer,
            serial: SerialModel {
                channel: self.channel.with_source(self.rx_register, false).with_destination(
                    buffer.address,
                    true,
                ).with_length(buffer.bytes.len() as usize).record(
                    Access::Barrier { fence: Fence::Release },
                ).started(),
                ..self
            },
        }
    }

    /// The transfer that `start_write` makes of this port and `buffer`.
    pub open spec fn started_write(self, buffer: Region) -> TransferModel {
        TransferModel {
            buffer,
            serial: SerialModel {
                channel: self.channel.with_destination(self.tx_register, false).with_source(
                    buffer.address,
                    true,
                ).with_length(buffer.bytes.len() as usize).record(
                    Access::Barrier { fence: Fence::Release },
                ).started(),
                ..self
            },
        }
    }
}

/// Serial port 1, which owns DMA channel 1.
pub struct Serial1 {
    pub(crate) dma: Dma1Channel1,
    pub(crate) tx_register: usize,
    pub(crate) rx_register: usize,
    pub(crate) incoming: Vec<u8>,
    pub(crate) sent: Vec<u8>,
}

impl View for Serial1 {
    type V = SerialModel;

    open(crate) spec fn view(&self) -> SerialModel {
        SerialModel {
            channel: self.dma@,
            tx_register: self.tx_register,
            rx_register: self.rx_register,
            incoming: self.incoming@,
            sent: self.sent@,
        }
    }
}

impl Serial1 {
    /// The port with its channel and the addresses of its data registers.
    pub fn new(dma: Dma1Channel1, tx_register: usize, rx_register: usize) -> (s: Serial1)
        ensures
            s@ == (SerialModel {
                channel: dma@,
                tx_register,
                rx_register,
                incoming: Seq::empty(),
                sent: Seq::empty(),
            }),
    {
        Serial1 { dma, tx_register, rx_register, incoming: Vec::new(), sent: Vec::new() }
    }

    /// A byte arrives on the line.
    pub fn receive(&mut self, byte: u8)
        ensures
            final(self)@ == (SerialModel { incoming: old(self)@.incoming.push(byte), ..old(self)@ }),
    {
        self.incoming.push(byte);
    }

    /// Reads out a single byte. The port blocks while no byte has arrived, so
    /// one must have.
    pub fn read(&mut self) -> (r: Result<u8, Error>)
        requires
            old(self)@.incoming.len() > 0,
        ensures
            r == Ok::<u8, Error>(old(self)@.incoming[0]),
            final(self)@ == (SerialModel {
                incoming: old(self)@.incoming.drop_first(),
                ..old(self)@
            }),
    {
        let byte = self.incoming.remove(0);
        proof {
            assert(self.incoming@ =~= old(self)@.incoming.drop_first());
        }
        Ok(byte)
    }

    /// Sends out a single byte.
    pub fn write(&mut self, byte: u8) -> (r: Result<(), Error>)
        ensures
            r == Ok::<(), Error>(()),
            final(self)@ == (SerialModel { sent: old(self)@.sent.push(byte), ..old(self)@ }),
    {
        self.sent.push(byte);
        Ok(())
    }

    /// The bytes sent so far.
    pub fn sent(&self) -> (r: &Vec<u8>)
        ensures
            r@ == self@.sent,
    {
        &self.sent
    }

    /// The channel, for reading its registers.
    pub fn channel(&self) -> (r: &Dma1Channel1)
        ensures
            r@ == self@.channel,
    {
        &self.dma
    }

    /// Receives data into `buffer` until it is filled. The port and the
    /// buffer belong to the returned transfer until it ends.
    pub fn start_read(self, buffer: Pinned) -> (t: Transfer)
        ensures
            t.wf(),
            t@ == self@.started_read(buffer@),
    {
        let mut serial = self;
        let len = buffer.len();
        let rx = serial.rx_register;
        serial.dma.set_source_address(rx, false);
        serial.dma.set_destination_address(buffer.address(), true);
        serial.dma.set_transfer_length(len);
        serial.dma.barrier(Fence::Release);
        serial.dma.start();
        Transfer { inner: Some(Inner { buffer, serial }) }
    }

    /// Sends out the whole of `buffer`. The port and the buffer belong to the
    /// returned transfer until it ends.
    pub fn start_write(self, buffer: Pinned) -> (t: Transfer)
        ensures
            t.wf(),
            t@ == self@.started_write(buffer@),
    {
        let mut serial = self;
        let len = buffer.len();
        let tx = serial.tx_register;
        serial.dma.set_destination_address(tx, false);
        serial.dma.set_source_address(buffer.address(), true);
        serial.dma.set_transfer_length(len);
        serial.dma.barrier(Fence::Release);
        serial.dma.start();
        Transfer { inner: Some(Inner { buffer, serial }) }
    }
}

} // verus!
