//! The board around the CPU: keyboard input, screen output, and the ports
//! of the two serial chips as the debugger wires them.

use vstd::prelude::*;
use std::collections::VecDeque;
use vstd::string::StringSliceAdditionalSpecFns;
use crate::serial::{acia_status, front_or_zero, rest, to_upper, upper, usart_status};
use crate::terminal::{put, TerminalBuffer, TerminalModel};

verus! {

/// ACIA control and status port.
pub const ACIA_CTRL: u8 = 0x80;

/// ACIA data port.
pub const ACIA_DATA: u8 = 0x81;

/// USART data port.
pub const USART_DATA: u8 = 0x00;

/// USART control and status port.
pub const USART_CTRL: u8 = 0x01;

/// ROM size protected by default: 8 KiB.
pub const ROM_SIZE_DEFAULT: u16 = 0x2000;

/// ROM size protected for a MINT image: 2 KiB.
pub const ROM_SIZE_MINT: u16 = 0x0800;

/// The board's state.
pub struct ShieldModel {
    pub rom_size: u16,
    pub terminal: TerminalModel,
    /// Keys typed and not yet read by the guest.
    pub input: Seq<u8>,
    /// Bytes sent by the guest and not yet shown.
    pub output: Seq<u8>,
    /// The guest has touched a USART port.
    pub uses_8251: bool,
    /// An interrupt was raised for the waiting input.
    pub int_signaled: bool,
}

/// The port that a bus address selects: its low byte.
pub open spec fn low_byte(port: i32) -> u8 {
    (port & 0xFF) as u8
}

/// The screen after the bytes of `bytes` were written to it in order.
pub open spec fn shown(t: TerminalModel, bytes: Seq<u8>) -> TerminalModel
    decreases bytes.len(),
{
    if bytes.len() == 0 {
        t
    } else {
        put(shown(t, bytes.drop_last()), bytes.last() as char)
    }
}

/// Writing to a whole screen leaves a whole screen.
pub proof fn lemma_put_keeps_screen(t: TerminalModel, c: char)
    requires
        t.wf(),
    ensures
        put(t, c).wf(),
{
}

impl ShieldModel {
    pub open spec fn wf(self) -> bool {
        self.terminal.wf()
    }

    /// The guest may be interrupted: it drives the USART, input waits, and
    /// no interrupt is outstanding for it.
    pub open spec fn should_interrupt(self) -> bool {
        self.uses_8251 && self.input.len() > 0 && !self.int_signaled
    }

    /// The board after the guest took a key, if one was waiting: taking
    /// one makes room for a new interrupt.
    pub open spec fn key_taken(self) -> ShieldModel {
        ShieldModel {
            input: rest(self.input),
            int_signaled: self.int_signaled && self.input.len() == 0,
            ..self
        }
    }

    /// The board after the guest read from `port`.
    pub open spec fn after_inp(self, port: u8) -> ShieldModel {
        if port == ACIA_DATA {
            self.key_taken()
        } else if port == USART_CTRL {
            ShieldModel { uses_8251: true, ..self }
        } else if port == USART_DATA {
            ShieldModel { uses_8251: true, ..self.key_taken() }
        } else {
            self
        }
    }

    /// The value that the guest reads from `port`.
    pub open spec fn inp_value(self, port: u8) -> u8 {
        if port == ACIA_CTRL {
            acia_status(self.input)
        } else if port == ACIA_DATA {
            front_or_zero(self.input)
        } else if port == USART_CTRL {
            usart_status(self.input)
        } else if port == USART_DATA {
            upper(front_or_zero(self.input))
        } else {
            0xFF
        }
    }

    /// The board after the guest wrote `val` to `port`.
    pub open spec fn after_outp(self, port: u8, val: u8) -> ShieldModel {
        if port == ACIA_DATA {
            ShieldModel { output: self.output.push(val), ..self }
        } else if port == USART_DATA {
            ShieldModel { uses_8251: true, output: self.output.push(val), ..self }
        } else if port == USART_CTRL {
            ShieldModel { uses_8251: true, ..self }
        } else {
            self
        }
    }

    /// Number of bytes that a flush of at most `max_chars` shows.
    pub open spec fn flushed(self, max_chars: int) -> int {
        if max_chars < self.output.len() {
            max_chars
        } else {
            self.output.len() as int
        }
    }
}

/// Where the name of the file starts in a path: behind its last slash.
pub open spec fn basename_start(path: Seq<u8>) -> int
    decreases path.len(),
{
    if path.len() == 0 {
        0
    } else if path.last() == 0x2F {
        path.len() as int
    } else {
        basename_start(path.drop_last())
    }
}

/// The word `mint` stands in `text` at index `i`.
pub open spec fn mint_at(text: Seq<u8>, i: int) -> bool {
    &&& 0 <= i
    &&& i + 4 <= text.len()
    &&& text[i] == 0x6D
    &&& text[i + 1] == 0x69
    &&& text[i + 2] == 0x6E
    &&& text[i + 3] == 0x74
}

/// The file name of `path` contains the word `mint`.
pub open spec fn names_mint(path: Seq<u8>) -> bool {
    exists|i: int| basename_start(path) <= i && #[trigger] mint_at(path, i)
}

/// The ROM size to protect for an image loaded from `path`.
pub open spec fn rom_size_for(path: Seq<u8>) -> u16 {
    if names_mint(path) {
        ROM_SIZE_MINT
    } else {
        ROM_SIZE_DEFAULT
    }
}

proof fn lemma_basename_start(path: Seq<u8>, k: int)
    requires
        0 <= k <= path.len(),
        k == 0 || path[k - 1] == 0x2F,
        forall|j: int| k <= j < path.len() ==> path[j] != 0x2F,
    ensures
        basename_start(path) == k,
    decreases path.len(),
{
    if path.len() > 0 && path.last() != 0x2F {
        lemma_basename_start(path.drop_last(), k);
    }
}

/// The index behind the last slash of `path`, or 0 where it has none.
pub fn find_basename(path: &[u8]) -> (k: usize)
    ensures
        k == basename_start(path@),
        k <= path@.len(),
{
    let mut k: usize = path.len();
    while k > 0 && path[k - 1] != 0x2F
        invariant
            k <= path@.len(),
            forall|j: int| k <= j < path@.len() ==> path@[j] != 0x2F,
        decreases k,
    {
        k -= 1;
    }
    proof {
        lemma_basename_start(path@, k as int);
    }
    k
}

/// Whether the file name of `path` contains the word `mint`.
pub fn is_mint_image(path: &[u8]) -> (r: bool)
    ensures
        r == names_mint(path@),
{
    let start: usize = find_basename(path);
    let n: usize = path.len();
    if n < 4 {
        return false;
    }
    let mut i: usize = start;
    while i <= n - 4
        invariant
            n == path@.len(),
            n >= 4,
            start <= i,
            start == basename_start(path@),
            forall|j: int| start <= j < i ==> !mint_at(path@, j),
        decreases n - i,
    {
        if path[i] == 0x6D && path[i + 1] == 0x69 && path[i + 2] == 0x6E && path[i + 3] == 0x74 {
            assert(mint_at(path@, i as int));
            return true;
        }
        i += 1;
    }
    false
}

/// The board.
pub struct RetroShield {
    rom_size: u16,
    terminal: TerminalBuffer,
    input_buffer: VecDeque<u8>,
    output_buffer: VecDeque<u8>,
    uses_8251: bool,
    int_signaled: bool,
}

impl View for RetroShield {
    type V = ShieldModel;

    closed spec fn view(&self) -> ShieldModel {
        ShieldModel {
            rom_size: self.rom_size,
            terminal: self.terminal@,
            input: self.input_buffer@,
            output: self.output_buffer@,
            uses_8251: self.uses_8251,
            int_signaled: self.int_signaled,
        }
    }
}

impl RetroShield {
    /// A board with a cleared screen, nothing typed, nothing to show, and
    /// the default ROM size.
    pub fn new() -> (board: RetroShield)
        ensures
            board@.wf(),
            board@ == (ShieldModel {
                rom_size: ROM_SIZE_DEFAULT,
                terminal: crate::terminal::blank(),
                input: Seq::empty(),
                output: Seq::empty(),
                uses_8251: false,
                int_signaled: false,
            }),
    {
        RetroShield {
            rom_size: ROM_SIZE_DEFAULT,
            terminal: TerminalBuffer::new(),
            input_buffer: VecDeque::new(),
            output_buffer: VecDeque::new(),
            uses_8251: false,
            int_signaled: false,
        }
    }

    /// Queues a byte for the screen.
    pub fn queue_output(&mut self, c: u8)
        ensures
            final(self)@ == (ShieldModel { output: old(self)@.output.push(c), ..old(self)@ }),
    {
        self.output_buffer.push_back(c);
    }

    /// Shows up to `max_chars` of the queued bytes on the screen, oldest
    /// first, and gives their number.
    pub fn flush_output(&mut self, max_chars: usize) -> (count: usize)
        requires
            old(self)@.wf(),
        ensures
            count == old(self)@.flushed(max_chars as int),
            final(self)@.wf(),
            final(self)@ == (ShieldModel {
                terminal: shown(old(self)@.terminal, old(self)@.output.subrange(0, count as int)),
                output: old(self)@.output.subrange(count as int, old(self)@.output.len() as int),
                ..old(self)@
            }),
    {
        let len: usize = self.output_buffer.len();
        let count: usize = if max_chars < len {
            max_chars
        } else {
            len
        };
        let mut i: usize = 0;
        while i < count
            invariant
                i <= count <= old(self)@.output.len(),
                self.terminal@.wf(),
                self.terminal@ == shown(old(self)@.terminal, old(self)@.output.subrange(0, i as int)),
                self.output_buffer@ == old(self)@.output.subrange(
                    i as int,
                    old(self)@.output.len() as int,
                ),
                self.rom_size == old(self).rom_size,
                self.input_buffer == old(self).input_buffer,
                self.uses_8251 == old(self).uses_8251,
                self.int_signaled == old(self).int_signaled,
            decreases count - i,
        {
            let ghost before = self.output_buffer@;
            match self.output_buffer.pop_front() {
                Some(c) => {
                    proof {
                        lemma_put_keeps_screen(self.terminal@, c as char);
                    }
                    self.terminal.putchar(c as char);
                },
                None => {},
            }
            i += 1;
            proof {
                let all = old(self)@.output;
                assert(all.subrange(0, i as int).drop_last() =~= all.subrange(0, i - 1));
                assert(self.output_buffer@ =~= all.subrange(i as int, all.len() as int));
            }
        }
        count
    }

    /// Number of bytes queued for the screen.
    pub fn pending_output(&self) -> (n: usize)
        ensures
            n == self@.output.len(),
    {
        self.output_buffer.len()
    }

    /// Sets the protected ROM size from the path of the image: 2 KiB where
    /// its file name contains `mint`, 8 KiB otherwise.
    pub fn configure_rom(&mut self, filename: &str)
        ensures
            final(self)@ == (ShieldModel {
                rom_size: rom_size_for(filename.spec_bytes()),
                ..old(self)@
            }),
    {
        if is_mint_image(filename.as_bytes()) {
            self.rom_size = ROM_SIZE_MINT;
        } else {
            self.rom_size = ROM_SIZE_DEFAULT;
        }
    }

    /// The protected ROM size.
    pub fn rom_size(&self) -> (n: u16)
        ensures
            n == self@.rom_size,
    {
        self.rom_size
    }

    /// Takes a key from the keyboard. A new key allows a new interrupt.
    pub fn send_key(&mut self, c: u8)
        ensures
            final(self)@ == (ShieldModel {
                input: old(self)@.input.push(c),
                int_signaled: false,
                ..old(self)@
            }),
    {
        self.input_buffer.push_back(c);
        self.int_signaled = false;
    }

    /// Whether a key waits.
    pub fn input_available(&self) -> (r: bool)
        ensures
            r == (self@.input.len() > 0),
    {
        self.input_buffer.len() > 0
    }

    /// Hands the oldest waiting key to the guest.
    pub fn get_input(&mut self) -> (key: Option<u8>)
        ensures
            final(self)@ == old(self)@.key_taken(),
            key == if old(self)@.input.len() > 0 {
                Some(old(self)@.input[0])
            } else {
                None
            },
    {
        let key: Option<u8> = self.input_buffer.pop_front();
        if key.is_some() {
            self.int_signaled = false;
        }
        key
    }

    /// Whether the guest has touched a USART port.
    pub fn uses_8251(&self) -> (r: bool)
        ensures
            r == self@.uses_8251,
    {
        self.uses_8251
    }

    /// Whether an interrupt is due.
    pub fn should_interrupt(&self) -> (r: bool)
        ensures
            r == self@.should_interrupt(),
    {
        self.uses_8251 && self.input_buffer.len() > 0 && !self.int_signaled
    }

    /// Records that the interrupt was raised.
    pub fn mark_interrupt_sent(&mut self)
        ensures
            final(self)@ == (ShieldModel { int_signaled: true, ..old(self)@ }),
            !final(self)@.should_interrupt(),
    {
        self.int_signaled = true;
    }

    /// The last rows of the screen as text.
    pub fn get_terminal_lines(&self, max_lines: usize) -> (lines: Vec<String>)
        requires
            self@.wf(),
        ensures
            lines@.len() == crate::terminal::rows_shown(max_lines as int),
            forall|k: int|
                0 <= k < lines@.len() ==> #[trigger] lines@[k]@ == crate::terminal::lines_shown(
                    self@.terminal,
                    max_lines as int,
                )[k],
            forall|k: int|
                0 <= k < lines@.len() ==> crate::terminal::cut_clean(
                    #[trigger] lines@[k]@,
                    self@.terminal.row(
                        crate::terminal::TERM_ROWS - crate::terminal::rows_shown(max_lines as int)
                            + k,
                    ),
                ),
            forall|k: int|
                0 <= k < lines@.len() && crate::terminal::all_spaces(
                    self@.terminal.row(
                        crate::terminal::TERM_ROWS - crate::terminal::rows_shown(max_lines as int)
                            + k,
                    ),
                ) ==> (#[trigger] lines@[k]@).len() == 0,
    {
        self.terminal.get_lines(max_lines)
    }

    /// The cursor of the screen: column, then row.
    pub fn get_cursor(&self) -> (at: (usize, usize))
        ensures
            at.0 == self@.terminal.x,
            at.1 == self@.terminal.y,
    {
        self.terminal.get_cursor()
    }

    /// Clears the screen.
    pub fn clear_terminal(&mut self)
        requires
            old(self)@.wf(),
        ensures
            final(self)@ == (ShieldModel { terminal: crate::terminal::blank(), ..old(self)@ }),
            final(self)@.wf(),
    {
        self.terminal.clear();
    }

    /// The guest reads from a port: the status or the data of either
    /// serial chip, fed from the keyboard; 0xFF from any other port.
    pub fn cpu_inp(&mut self, port: i32) -> (val: i32)
        ensures
            val == old(self)@.inp_value(low_byte(port)),
            final(self)@ == old(self)@.after_inp(low_byte(port)),
    {
        assert(0 <= port & 0xFF < 256) by (bit_vector);
        let p: u8 = (port & 0xFF) as u8;
        let val: u8 = if p == ACIA_CTRL {
            if self.input_available() {
                0x03
            } else {
                0x02
            }
        } else if p == ACIA_DATA {
            match self.get_input() {
                Some(c) => c,
                None => 0,
            }
        } else if p == USART_CTRL {
            self.uses_8251 = true;
            if self.input_available() {
                0x87
            } else {
                0x85
            }
        } else if p == USART_DATA {
            self.uses_8251 = true;
            let c: u8 = match self.get_input() {
                Some(c) => c,
                None => 0,
            };
            to_upper(c)
        } else {
            0xFF
        };
        val as i32
    }

    /// The guest writes to a port: a byte for the screen on either data
    /// port. Any other port drops the byte.
    pub fn cpu_outp(&mut self, port: i32, val: i32)
        ensures
            final(self)@ == old(self)@.after_outp(low_byte(port), low_byte(val)),
    {
        assert(0 <= port & 0xFF < 256) by (bit_vector);
        assert(0 <= val & 0xFF < 256) by (bit_vector);
        let p: u8 = (port & 0xFF) as u8;
        let v: u8 = (val & 0xFF) as u8;
        if p == ACIA_DATA {
            self.queue_output(v);
        } else if p == USART_DATA {
            self.uses_8251 = true;
            self.queue_output(v);
        } else if p == USART_CTRL {
            self.uses_8251 = true;
        }
    }
}

} // verus!
