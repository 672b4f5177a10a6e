//! The board of the browser front end: one receive queue shared by both
//! serial chips, and a buffer of bytes sent that the page collects.

use vstd::prelude::*;
use std::collections::VecDeque;
use crate::serial::{acia_status, front_or_zero, rest, to_upper, upper, usart_status};
use crate::shield::{low_byte, ACIA_CTRL, ACIA_DATA, USART_CTRL, USART_DATA};

verus! {

/// The board's state.
pub struct WebModel {
    /// Bytes received and not yet read by the guest.
    pub rx: Seq<u8>,
    /// Bytes sent by the guest and not yet collected.
    pub tx: Seq<u8>,
    /// The guest is known to drive the USART by interrupts.
    pub uses_8251: bool,
    /// An interrupt was raised for the waiting input.
    pub int_signaled: bool,
}

impl WebModel {
    /// An interrupt is due: the USART is in use, input waits, and none is
    /// outstanding.
    pub open spec fn should_interrupt(self) -> bool {
        self.uses_8251 && self.rx.len() > 0 && !self.int_signaled
    }

    /// The value that the guest reads from `port`.
    pub open spec fn inp_value(self, port: u8) -> u8 {
        if port == ACIA_CTRL {
            acia_status(self.rx)
        } else if port == ACIA_DATA {
            front_or_zero(self.rx)
        } else if port == USART_CTRL {
            usart_status(self.rx)
        } else if port == USART_DATA {
            upper(front_or_zero(self.rx))
        } else {
            0xFF
        }
    }

    /// The board after the guest read from `port`: a data port takes the
    /// oldest byte off the queue, and the USART's also clears the interrupt.
    pub open spec fn after_inp(self, port: u8) -> WebModel {
        if port == ACIA_DATA {
            WebModel { rx: rest(self.rx), ..self }
        } else if port == USART_DATA {
            WebModel { rx: rest(self.rx), int_signaled: false, ..self }
        } else {
            self
        }
    }

    /// The board after the guest wrote `val` to `port`.
    pub open spec fn after_outp(self, port: u8, val: u8) -> WebModel {
        if port == ACIA_DATA || port == USART_DATA {
            WebModel { tx: self.tx.push(val), ..self }
        } else {
            self
        }
    }
}

/// The board of the browser front end.
pub struct WebShield {
    rx_buffer: VecDeque<u8>,
    tx_buffer: Vec<u8>,
    uses_8251: bool,
    int_signaled: bool,
}

impl View for WebShield {
    type V = WebModel;

    closed spec fn view(&self) -> WebModel {
        WebModel {
            rx: self.rx_buffer@,
            tx: self.tx_buffer@,
            uses_8251: self.uses_8251,
            int_signaled: self.int_signaled,
        }
    }
}

impl WebShield {
    /// A board with empty buffers.
    pub fn new() -> (board: WebShield)
        ensures
            board@ == (WebModel {
                rx: Seq::empty(),
                tx: Seq::empty(),
                uses_8251: false,
                int_signaled: false,
            }),
    {
        WebShield {
            rx_buffer: VecDeque::new(),
            tx_buffer: Vec::new(),
            uses_8251: false,
            int_signaled: false,
        }
    }

    /// Whether an interrupt is due.
    pub fn should_interrupt(&self) -> (r: bool)
        ensures
            r == self@.should_interrupt(),
    {
        self.uses_8251 && self.rx_buffer.len() > 0 && !self.int_signaled
    }

    /// Records whether the interrupt was raised.
    pub fn set_int_signaled(&mut self, signaled: bool)
        ensures
            final(self)@ == (WebModel { int_signaled: signaled, ..old(self)@ }),
    {
        self.int_signaled = signaled;
    }

    /// Says whether the guest drives the USART by interrupts.
    pub fn set_8251_mode(&mut self, enabled: bool)
        ensures
            final(self)@ == (WebModel { uses_8251: enabled, ..old(self)@ }),
    {
        self.uses_8251 = enabled;
    }

    /// Receives a byte for the guest.
    pub fn push_input(&mut self, c: u8)
        ensures
            final(self)@ == (WebModel { rx: old(self)@.rx.push(c), ..old(self)@ }),
    {
        self.rx_buffer.push_back(c);
    }

    /// Hands out the bytes sent so far and forgets them.
    pub fn take_output(&mut self) -> (out: Vec<u8>)
        ensures
            out@ == old(self)@.tx,
            final(self)@ == (WebModel { tx: Seq::empty(), ..old(self)@ }),
    {
        let mut out: Vec<u8> = Vec::new();
        std::mem::swap(&mut out, &mut self.tx_buffer);
        out
    }

    /// Empties both buffers and clears the interrupt.
    pub fn reset(&mut self)
        ensures
            final(self)@ == (WebModel {
                rx: Seq::empty(),
                tx: Seq::empty(),
                int_signaled: false,
                ..old(self)@
            }),
    {
        self.rx_buffer.clear();
        self.tx_buffer.clear();
        self.int_signaled = false;
    }

    /// The ACIA status: TDRE always, RDRF while input waits.
    pub fn read_acia_status(&self) -> (status: u8)
        ensures
            status == acia_status(self@.rx),
    {
        if self.rx_buffer.len() > 0 {
            0x03
        } else {
            0x02
        }
    }

    /// The ACIA data: the oldest byte received, or zero.
    pub fn read_acia_data(&mut self) -> (c: u8)
        ensures
            c == front_or_zero(old(self)@.rx),
            final(self)@ == old(self)@.after_inp(ACIA_DATA),
    {
        match self.rx_buffer.pop_front() {
            Some(c) => c,
            None => 0,
        }
    }

    /// The USART status: TxRDY, TxE and DSR always, RxRDY while input waits.
    pub fn read_usart_status(&self) -> (status: u8)
        ensures
            status == usart_status(self@.rx),
    {
        if self.rx_buffer.len() > 0 {
            0x87
        } else {
            0x85
        }
    }

    /// The USART data: the oldest byte received, a lower-case letter as its
    /// capital, or zero. Reading it clears the interrupt.
    pub fn read_usart_data(&mut self) -> (c: u8)
        ensures
            c == upper(front_or_zero(old(self)@.rx)),
            final(self)@ == old(self)@.after_inp(USART_DATA),
    {
        let c: u8 = match self.rx_buffer.pop_front() {
            Some(c) => c,
            None => 0,
        };
        self.int_signaled = false;
        to_upper(c)
    }

    /// Takes a byte that the guest sent.
    pub fn write_data(&mut self, val: u8)
        ensures
            final(self)@ == (WebModel { tx: old(self)@.tx.push(val), ..old(self)@ }),
    {
        self.tx_buffer.push(val);
    }

    /// The guest reads from a port.
    pub fn cpu_inp(&mut self, port: i32) -> (val: i32)
        ensures
            val == old(self)@.inp_value(low_byte(port)),
            final(self)@ == old(self)@.after_inp(low_byte(port)),
    {
        assert(0 <= port & 0xFF < 256) by (bit_vector);
        let p: u8 = (port & 0xFF) as u8;
        let val: u8 = if p == ACIA_CTRL {
            self.read_acia_status()
        } else if p == ACIA_DATA {
            self.read_acia_data()
        } else if p == USART_CTRL {
            self.read_usart_status()
        } else if p == USART_DATA {
            self.read_usart_data()
        } else {
            0xFF
        };
        val as i32
    }

    /// The guest writes to a port: a byte to send on either data port.
    pub fn cpu_outp(&mut self, port: i32, val: i32)
        ensures
            final(self)@ == old(self)@.after_outp(low_byte(port), low_byte(val)),
    {
        assert(0 <= port & 0xFF < 256) by (bit_vector);
        assert(0 <= val & 0xFF < 256) by (bit_vector);
        let p: u8 = (port & 0xFF) as u8;
        let v: u8 = (val & 0xFF) as u8;
        if p == ACIA_DATA || p == USART_DATA {
            self.write_data(v);
        }
    }
}

} // verus!
