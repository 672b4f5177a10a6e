//! The two serial chips: an MC6850 ACIA and an Intel 8251 USART.
//!
//! Each keeps a queue of received bytes. The embedding program polls the
//! keyboard and hands in what it read, if anything, with every register read.

use vstd::prelude::*;
use std::collections::VecDeque;

verus! {

/// ACIA status bit: the receive data register is full.
pub const ACIA_RDRF: u8 = 0x01;

/// ACIA status bit: the transmit data register is empty.
pub const ACIA_TDRE: u8 = 0x02;

/// USART status bit: the transmitter is ready.
pub const STAT_8251_TXRDY: u8 = 0x01;

/// USART status bit: the receiver is ready.
pub const STAT_8251_RXRDY: u8 = 0x02;

/// USART status bit: the transmitter is empty.
pub const STAT_8251_TXE: u8 = 0x04;

/// USART status bit: data set ready.
pub const STAT_DSR: u8 = 0x80;

/// USART status with nothing received: TxRDY, TxE and DSR.
pub const USART_STATUS_INIT: u8 = 0x85;

/// The receive queue after the keyboard was polled: a byte that was read
/// joins the queue unless it is zero.
pub open spec fn received(rx: Seq<u8>, incoming: Option<u8>) -> Seq<u8> {
    match incoming {
        Some(c) if c != 0 => rx.push(c),
        _ => rx,
    }
}

/// The queue after its first byte was taken, or the empty queue as it is.
pub open spec fn rest(rx: Seq<u8>) -> Seq<u8> {
    if rx.len() > 0 {
        rx.subrange(1, rx.len() as int)
    } else {
        rx
    }
}

/// The first byte of the queue, or zero where it is empty.
pub open spec fn front_or_zero(rx: Seq<u8>) -> u8 {
    if rx.len() > 0 {
        rx[0]
    } else {
        0
    }
}

/// A lower-case ASCII letter as its capital; any other byte as it is.
pub open spec fn upper(c: u8) -> u8 {
    if 0x61 <= c <= 0x7A {
        (c - 0x20) as u8
    } else {
        c
    }
}

/// The ACIA status byte for a receive queue.
pub open spec fn acia_status(rx: Seq<u8>) -> u8 {
    if rx.len() > 0 {
        0x03
    } else {
        0x02
    }
}

/// The USART status byte for a receive queue.
pub open spec fn usart_status(rx: Seq<u8>) -> u8 {
    if rx.len() > 0 {
        0x87
    } else {
        0x85
    }
}

/// Puts the byte that the keyboard poll read, if any, into the queue.
fn take_in(rx: &mut VecDeque<u8>, incoming: Option<u8>)
    ensures
        final(rx)@ == received(old(rx)@, incoming),
{
    match incoming {
        Some(c) => {
            if c != 0 {
                rx.push_back(c);
            }
        },
        None => {},
    }
}

/// Takes the first byte off the queue; zero where it is empty.
fn take_out(rx: &mut VecDeque<u8>) -> (c: u8)
    ensures
        c == front_or_zero(old(rx)@),
        final(rx)@ == rest(old(rx)@),
{
    match rx.pop_front() {
        Some(c) => c,
        None => 0,
    }
}

/// State of the MC6850.
pub struct AciaModel {
    pub control: u8,
    pub rx: Seq<u8>,
}

/// MC6850 ACIA.
pub struct Mc6850 {
    control: u8,
    rx_buffer: VecDeque<u8>,
}

impl View for Mc6850 {
    type V = AciaModel;

    closed spec fn view(&self) -> AciaModel {
        AciaModel { control: self.control, rx: self.rx_buffer@ }
    }
}

impl Mc6850 {
    /// A chip with nothing received and a zero control register.
    pub fn new() -> (chip: Mc6850)
        ensures
            chip@ == (AciaModel { control: 0, rx: Seq::empty() }),
    {
        Mc6850 { control: 0, rx_buffer: VecDeque::new() }
    }

    /// Reads the status register: TDRE always, RDRF while a received byte
    /// waits. `incoming` is what the keyboard poll read, if anything.
    pub fn read_status(&mut self, incoming: Option<u8>) -> (status: u8)
        ensures
            final(self)@ == (AciaModel { rx: received(old(self)@.rx, incoming), ..old(self)@ }),
            status == acia_status(final(self)@.rx),
    {
        take_in(&mut self.rx_buffer, incoming);
        if self.rx_buffer.len() > 0 {
            0x03
        } else {
            0x02
        }
    }

    /// Reads the data register: the oldest received byte, or zero where
    /// there is none.
    pub fn read_data(&mut self, incoming: Option<u8>) -> (c: u8)
        ensures
            c == front_or_zero(received(old(self)@.rx, incoming)),
            final(self)@ == (AciaModel {
                rx: rest(received(old(self)@.rx, incoming)),
                ..old(self)@
            }),
    {
        take_in(&mut self.rx_buffer, incoming);
        take_out(&mut self.rx_buffer)
    }

    /// Writes the control register.
    pub fn write_control(&mut self, val: u8)
        ensures
            final(self)@ == (AciaModel { control: val, ..old(self)@ }),
    {
        self.control = val;
    }
}

/// State of the 8251.
pub struct UsartModel {
    pub mode: u8,
    pub command: u8,
    pub rx: Seq<u8>,
}

/// Intel 8251 USART.
pub struct Intel8251 {
    mode: u8,
    command: u8,
    rx_buffer: VecDeque<u8>,
}

impl View for Intel8251 {
    type V = UsartModel;

    closed spec fn view(&self) -> UsartModel {
        UsartModel { mode: self.mode, command: self.command, rx: self.rx_buffer@ }
    }
}

/// Converts a lower-case ASCII letter to its capital.
pub fn to_upper(c: u8) -> (r: u8)
    ensures
        r == upper(c),
{
    if c >= 0x61 && c <= 0x7A {
        c - 0x20
    } else {
        c
    }
}

impl Intel8251 {
    /// A chip with nothing received and zero mode and command registers.
    pub fn new() -> (chip: Intel8251)
        ensures
            chip@ == (UsartModel { mode: 0, command: 0, rx: Seq::empty() }),
    {
        Intel8251 { mode: 0, command: 0, rx_buffer: VecDeque::new() }
    }

    /// Reads the status register: TxRDY, TxE and DSR always, RxRDY while a
    /// received byte waits.
    pub fn read_status(&mut self, incoming: Option<u8>) -> (status: u8)
        ensures
            final(self)@ == (UsartModel { rx: received(old(self)@.rx, incoming), ..old(self)@ }),
            status == usart_status(final(self)@.rx),
    {
        take_in(&mut self.rx_buffer, incoming);
        if self.rx_buffer.len() > 0 {
            0x87
        } else {
            0x85
        }
    }

    /// Reads the data register: the oldest received byte, a lower-case
    /// letter as its capital, or zero where there is none.
    pub fn read_data(&mut self, incoming: Option<u8>) -> (c: u8)
        ensures
            c == upper(front_or_zero(received(old(self)@.rx, incoming))),
            final(self)@ == (UsartModel {
                rx: rest(received(old(self)@.rx, incoming)),
                ..old(self)@
            }),
    {
        take_in(&mut self.rx_buffer, incoming);
        let c: u8 = take_out(&mut self.rx_buffer);
        to_upper(c)
    }

    /// Writes the command register.
    pub fn write_control(&mut self, val: u8)
        ensures
            final(self)@ == (UsartModel { command: val, ..old(self)@ }),
    {
        self.command = val;
    }
}

} // verus!
