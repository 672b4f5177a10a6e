//! The board of the command-line emulator: both serial chips on the
//! keyboard and the screen, a memory dump driven through five ports, and
//! the loading of a ROM image.

use vstd::prelude::*;
use vstd::string::StringSliceAdditionalSpecFns;
use crate::dma::heap_after_block;
use crate::guest::{
    blank_guest, byte_seen, guest_heap, guest_pages, mapped_in_heap, read_guest, write_guest,
    ADDRESS_SPACE,
};
use crate::serial::{
    acia_status, front_or_zero, received, rest, upper, usart_status, AciaModel, Intel8251,
    Mc6850, UsartModel,
};
use crate::shield::{
    is_mint_image, low_byte, rom_size_for, ACIA_CTRL, ACIA_DATA, ROM_SIZE_DEFAULT,
    ROM_SIZE_MINT, USART_CTRL, USART_DATA,
};

verus! {

/// Dump start address, low byte.
pub const DUMP_ADDR_LO: u8 = 0x82;

/// Dump start address, high byte.
pub const DUMP_ADDR_HI: u8 = 0x83;

/// Dump length, low byte.
pub const DUMP_LEN_LO: u8 = 0x84;

/// Dump length, high byte.
pub const DUMP_LEN_HI: u8 = 0x85;

/// A write of any value starts the dump.
pub const DUMP_TRIGGER: u8 = 0x86;

/// What the embedding program does after a port write.
#[derive(Clone, Copy, PartialEq, Eq, Structural, Debug)]
pub enum BusAction {
    /// Nothing.
    Idle,
    /// Print this byte as a character.
    Print(u8),
    /// Write the memory dump to its file.
    Dump,
}

/// The board's state.
pub struct ConsoleModel {
    pub rom_size: u16,
    pub acia: AciaModel,
    pub usart: UsartModel,
    pub debug: bool,
    /// The two lanes of the dump's start address.
    pub start_low: u8,
    pub start_high: u8,
    /// The two lanes of the dump's length.
    pub len_low: u8,
    pub len_high: u8,
}

impl ConsoleModel {
    /// First address of the dump.
    pub open spec fn dump_start(self) -> int {
        self.start_low + 256 * self.start_high
    }

    /// Length asked for.
    pub open spec fn dump_length(self) -> int {
        self.len_low + 256 * self.len_high
    }

    /// Number of bytes dumped: the length asked for, cut at the end of the
    /// address space.
    pub open spec fn dump_count(self) -> int {
        if self.dump_start() + self.dump_length() <= ADDRESS_SPACE {
            self.dump_length()
        } else {
            ADDRESS_SPACE - self.dump_start()
        }
    }

    /// The value that the guest reads from `port`, the keyboard poll having
    /// read `incoming`.
    pub open spec fn inp_value(self, port: u8, incoming: Option<u8>) -> u8 {
        if port == ACIA_CTRL {
            acia_status(received(self.acia.rx, incoming))
        } else if port == ACIA_DATA {
            front_or_zero(received(self.acia.rx, incoming))
        } else if port == USART_CTRL {
            usart_status(received(self.usart.rx, incoming))
        } else if port == USART_DATA {
            upper(front_or_zero(received(self.usart.rx, incoming)))
        } else {
            0xFF
        }
    }

    /// The board after the guest read from `port`.
    pub open spec fn after_inp(self, port: u8, incoming: Option<u8>) -> ConsoleModel {
        if port == ACIA_CTRL {
            ConsoleModel {
                acia: AciaModel { rx: received(self.acia.rx, incoming), ..self.acia },
                ..self
            }
        } else if port == ACIA_DATA {
            ConsoleModel {
                acia: AciaModel { rx: rest(received(self.acia.rx, incoming)), ..self.acia },
                ..self
            }
        } else if port == USART_CTRL {
            ConsoleModel {
                usart: UsartModel { rx: received(self.usart.rx, incoming), ..self.usart },
                ..self
            }
        } else if port == USART_DATA {
            ConsoleModel {
                usart: UsartModel { rx: rest(received(self.usart.rx, incoming)), ..self.usart },
                ..self
            }
        } else {
            self
        }
    }

    /// The board after the guest wrote `val` to `port`.
    pub open spec fn after_outp(self, port: u8, val: u8) -> ConsoleModel {
        if port == DUMP_ADDR_LO {
            ConsoleModel { start_low: val, ..self }
        } else if port == DUMP_ADDR_HI {
            ConsoleModel { start_high: val, ..self }
        } else if port == DUMP_LEN_LO {
            ConsoleModel { len_low: val, ..self }
        } else if port == DUMP_LEN_HI {
            ConsoleModel { len_high: val, ..self }
        } else {
            self
        }
    }
}

/// The port belongs to one of the serial chips, so that a read from it
/// polls the keyboard.
pub open spec fn is_serial_port(port: u8) -> bool {
    port == ACIA_CTRL || port == ACIA_DATA || port == USART_CTRL || port == USART_DATA
}

/// What a write of `val` to `port` asks of the embedding program.
pub open spec fn outp_action(port: u8, val: u8) -> BusAction {
    if port == ACIA_DATA || port == USART_DATA {
        BusAction::Print(val)
    } else if port == DUMP_TRIGGER {
        BusAction::Dump
    } else {
        BusAction::Idle
    }
}

/// The bytes of a dump: what the guest reads at each of `count` addresses
/// from `start` on.
pub open spec fn dumped(heap: Seq<u8>, pages: Map<int, (int, bool)>, start: int, count: int) -> Seq<
    u8,
> {
    Seq::new(count as nat, |i: int| byte_seen(heap, pages, start + i))
}

/// The board of the command-line emulator.
pub struct Console {
    rom_size: u16,
    acia: Mc6850,
    usart: Intel8251,
    debug: bool,
    start_low: u8,
    start_high: u8,
    len_low: u8,
    len_high: u8,
}

impl View for Console {
    type V = ConsoleModel;

    closed spec fn view(&self) -> ConsoleModel {
        ConsoleModel {
            rom_size: self.rom_size,
            acia: self.acia@,
            usart: self.usart@,
            debug: self.debug,
            start_low: self.start_low,
            start_high: self.start_high,
            len_low: self.len_low,
            len_high: self.len_high,
        }
    }
}

impl Console {
    /// A board with fresh chips, the default ROM size and an empty dump
    /// range.
    pub fn new() -> (board: Console)
        ensures
            board@ == (ConsoleModel {
                rom_size: ROM_SIZE_DEFAULT,
                acia: AciaModel { control: 0, rx: Seq::empty() },
                usart: UsartModel { mode: 0, command: 0, rx: Seq::empty() },
                debug: false,
                start_low: 0,
                start_high: 0,
                len_low: 0,
                len_high: 0,
            }),
    {
        Console {
            rom_size: ROM_SIZE_DEFAULT,
            acia: Mc6850::new(),
            usart: Intel8251::new(),
            debug: false,
            start_low: 0,
            start_high: 0,
            len_low: 0,
            len_high: 0,
        }
    }

    /// Turns tracing on or off.
    pub fn set_debug(&mut self, debug: bool)
        ensures
            final(self)@ == (ConsoleModel { debug, ..old(self)@ }),
    {
        self.debug = debug;
    }

    /// Whether tracing is on.
    pub fn debug(&self) -> (r: bool)
        ensures
            r == self@.debug,
    {
        self.debug
    }

    /// Sets the protected ROM size from the path of the image: 2 KiB where
    /// its file name contains `mint`, 8 KiB otherwise.
    pub fn configure_rom(&mut self, filename: &str)
        ensures
            final(self)@ == (ConsoleModel {
                rom_size: rom_size_for(filename.spec_bytes()),
                ..old(self)@
            }),
    {
        if is_mint_image(filename.as_bytes()) {
            self.rom_size = ROM_SIZE_MINT;
        } else {
            self.rom_size = ROM_SIZE_DEFAULT;
        }
    }

    /// The protected ROM size.
    pub fn rom_size(&self) -> (n: u16)
        ensures
            n == self@.rom_size,
    {
        self.rom_size
    }

    /// First address of the dump.
    pub fn dump_start(&self) -> (addr: u16)
        ensures
            addr == self@.dump_start(),
    {
        self.start_low as u16 + 256 * (self.start_high as u16)
    }

    /// Length asked of the dump.
    pub fn dump_length(&self) -> (len: u16)
        ensures
            len == self@.dump_length(),
    {
        self.len_low as u16 + 256 * (self.len_high as u16)
    }

    /// Whether a read from `port` polls the keyboard first.
    pub fn polls_keyboard(port: i32) -> (r: bool)
        ensures
            r == is_serial_port(low_byte(port)),
    {
        assert(0 <= port & 0xFF < 256) by (bit_vector);
        let p: u8 = (port & 0xFF) as u8;
        p == ACIA_CTRL || p == ACIA_DATA || p == USART_CTRL || p == USART_DATA
    }

    /// The guest reads from a port. `incoming` is what the keyboard poll
    /// read, if anything; it goes to the chip that the port belongs to.
    pub fn cpu_inp(&mut self, port: i32, incoming: Option<u8>) -> (val: i32)
        ensures
            val == old(self)@.inp_value(low_byte(port), incoming),
            final(self)@ == old(self)@.after_inp(low_byte(port), incoming),
    {
        assert(0 <= port & 0xFF < 256) by (bit_vector);
        let p: u8 = (port & 0xFF) as u8;
        let val: u8 = if p == ACIA_CTRL {
            self.acia.read_status(incoming)
        } else if p == ACIA_DATA {
            self.acia.read_data(incoming)
        } else if p == USART_CTRL {
            self.usart.read_status(incoming)
        } else if p == USART_DATA {
            self.usart.read_data(incoming)
        } else {
            0xFF
        };
        val as i32
    }

    /// The guest writes to a port: a character to print on either data
    /// port, a lane of the dump range, or the dump trigger.
    pub fn cpu_outp(&mut self, port: i32, val: i32) -> (action: BusAction)
        ensures
            action == outp_action(low_byte(port), low_byte(val)),
            final(self)@ == old(self)@.after_outp(low_byte(port), low_byte(val)),
    {
        assert(0 <= port & 0xFF < 256) by (bit_vector);
        assert(0 <= val & 0xFF < 256) by (bit_vector);
        let p: u8 = (port & 0xFF) as u8;
        let v: u8 = (val & 0xFF) as u8;
        if p == ACIA_DATA || p == USART_DATA {
            BusAction::Print(v)
        } else if p == DUMP_ADDR_LO {
            self.start_low = v;
            BusAction::Idle
        } else if p == DUMP_ADDR_HI {
            self.start_high = v;
            BusAction::Idle
        } else if p == DUMP_LEN_LO {
            self.len_low = v;
            BusAction::Idle
        } else if p == DUMP_LEN_HI {
            self.len_high = v;
            BusAction::Idle
        } else if p == DUMP_TRIGGER {
            BusAction::Dump
        } else {
            BusAction::Idle
        }
    }

    /// The bytes of the memory dump: the range set through the dump ports,
    /// cut at the end of the address space. `None` where the length is zero
    /// and there is nothing to dump.
    pub fn do_memory_dump(&self, mem: &rz80::Memory) -> (out: Option<Vec<u8>>)
        requires
            mapped_in_heap(*mem),
        ensures
            self@.dump_length() == 0 <==> out is None,
            out matches Some(bytes) ==> bytes@ == dumped(
                guest_heap(*mem),
                guest_pages(*mem),
                self@.dump_start(),
                self@.dump_count(),
            ),
    {
        let start: u32 = self.start_low as u32 + 256 * (self.start_high as u32);
        let len: u32 = self.len_low as u32 + 256 * (self.len_high as u32);
        if len == 0 {
            return None;
        }
        let end: u32 = if start + len <= ADDRESS_SPACE {
            start + len
        } else {
            ADDRESS_SPACE
        };
        let mut bytes: Vec<u8> = Vec::new();
        let mut addr: u32 = start;
        while addr < end
            invariant
                start <= addr <= end <= ADDRESS_SPACE,
                mapped_in_heap(*mem),
                bytes@.len() == addr - start,
                forall|i: int|
                    0 <= i < bytes@.len() ==> #[trigger] bytes@[i] == byte_seen(
                        guest_heap(*mem),
                        guest_pages(*mem),
                        start + i,
                    ),
            decreases end - addr,
        {
            bytes.push(read_guest(mem, addr as u16));
            addr += 1;
        }
        assert(bytes@ =~= dumped(
            guest_heap(*mem),
            guest_pages(*mem),
            self@.dump_start(),
            self@.dump_count(),
        ));
        Some(bytes)
    }
}

/// Copies a ROM image into guest memory from address 0 on; what does not
/// fit into the address space is left out. Gives the size of the image.
pub fn load_rom(mem: &mut rz80::Memory, image: &[u8]) -> (size: usize)
    requires
        mapped_in_heap(*old(mem)),
    ensures
        size == image@.len(),
        mapped_in_heap(*final(mem)),
        guest_pages(*final(mem)) == guest_pages(*old(mem)),
        guest_heap(*final(mem)) == heap_after_block(
            guest_heap(*old(mem)),
            guest_pages(*old(mem)),
            0,
            image@,
            image@.len(),
        ),
{
    let mut i: usize = 0;
    while i < image.len()
        invariant
            i <= image@.len(),
            mapped_in_heap(*mem),
            guest_pages(*mem) == guest_pages(*old(mem)),
            guest_heap(*mem) == heap_after_block(
                guest_heap(*old(mem)),
                guest_pages(*old(mem)),
                0,
                image@,
                i as nat,
            ),
        decreases image@.len() - i,
    {
        if i < 0x10000 {
            let ghost before = guest_heap(*mem);
            let ghost pages = guest_pages(*mem);
            write_guest(mem, i as u16, image[i]);
            proof {
                if pages.contains_key(i as int) {
                    assert(0 <= pages[i as int].0 < before.len());
                }
                assert(guest_heap(*mem).len() == before.len());
            }
        }
        i += 1;
    }
    image.len()
}

/// A fresh guest memory of 64 KiB, all of it writable, with a ROM image
/// copied in from address 0 on.
pub fn memory_with_rom(image: &[u8]) -> (mem: rz80::Memory)
    ensures
        mapped_in_heap(mem),
        crate::dma::flat(guest_heap(mem), guest_pages(mem)),
        forall|a: int|
            0 <= a < ADDRESS_SPACE ==> #[trigger] byte_seen(guest_heap(mem), guest_pages(mem), a)
                == if a < image@.len() {
                image@[a]
            } else {
                0u8
            },
{
    let mut mem = blank_guest();
    let ghost heap = guest_heap(mem);
    let ghost pages = guest_pages(mem);
    assert(mapped_in_heap(mem));
    load_rom(&mut mem, image);
    proof {
        lemma_image_lands(heap, pages, image@, image@.len());
    }
    mem
}

/// In a flat store, the first `n` bytes of an image written from address 0
/// on stand at their addresses, and nothing else has changed.
proof fn lemma_image_lands(heap: Seq<u8>, pages: Map<int, (int, bool)>, image: Seq<u8>, n: nat)
    requires
        crate::dma::flat(heap, pages),
        n <= image.len(),
    ensures
        heap_after_block(heap, pages, 0, image, n).len() == heap.len(),
        forall|a: int|
            0 <= a < heap.len() ==> #[trigger] heap_after_block(heap, pages, 0, image, n)[a] == if a
                < n && a < ADDRESS_SPACE {
                image[a]
            } else {
                heap[a]
            },
    decreases n,
{
    if n > 0 {
        lemma_image_lands(heap, pages, image, (n - 1) as nat);
        let at = n - 1;
        if at < ADDRESS_SPACE {
            assert(pages.contains_key(at));
            assert(pages[at] == (at, true));
        }
    }
}

/// Where the stack pointer stands after a word was pushed.
pub open spec fn pushed_sp(sp: u16) -> u16 {
    if sp >= 2 {
        (sp - 2) as u16
    } else {
        (sp + 0x10000 - 2) as u16
    }
}

/// The address behind `addr`, wrapping at the end of the address space.
pub open spec fn next_addr(addr: u16) -> u16 {
    if addr == 0xFFFF {
        0u16
    } else {
        (addr + 1) as u16
    }
}

/// Pushes the return address `pc` on the guest's stack, as the CPU does
/// when it accepts an interrupt in mode 1: the stack pointer goes down by
/// two, the low byte is stored there and the high byte behind it. Gives the
/// new stack pointer.
pub fn push_return_address(mem: &mut rz80::Memory, sp: u16, pc: u16) -> (new_sp: u16)
    requires
        mapped_in_heap(*old(mem)),
    ensures
        new_sp == pushed_sp(sp),
        mapped_in_heap(*final(mem)),
        guest_pages(*final(mem)) == guest_pages(*old(mem)),
        guest_heap(*final(mem)) == crate::guest::heap_written(
            crate::guest::heap_written(
                guest_heap(*old(mem)),
                guest_pages(*old(mem)),
                pushed_sp(sp) as int,
                (pc % 256) as u8,
            ),
            guest_pages(*old(mem)),
            next_addr(pushed_sp(sp)) as int,
            (pc / 256) as u8,
        ),
{
    let new_sp: u16 = sp.wrapping_sub(2);
    let low: u8 = (pc % 256) as u8;
    let high: u8 = (pc / 256) as u8;
    let ghost pages = guest_pages(*mem);
    let ghost h0 = guest_heap(*mem);
    write_guest(mem, new_sp, low);
    proof {
        if pages.contains_key(new_sp as int) {
            assert(0 <= pages[new_sp as int].0 < h0.len());
        }
        assert(guest_heap(*mem).len() == h0.len());
    }
    let ghost h1 = guest_heap(*mem);
    let second: u16 = new_sp.wrapping_add(1);
    write_guest(mem, second, high);
    proof {
        if pages.contains_key(second as int) {
            assert(0 <= pages[second as int].0 < h1.len());
        }
        assert(guest_heap(*mem).len() == h1.len());
    }
    new_sp
}

/// What to do about a pending interrupt.
#[derive(Clone, Copy, PartialEq, Eq, Structural, Debug)]
pub enum InterruptAction {
    /// No interrupt is due, or the CPU does not take one now.
    Idle,
    /// Mode 1: push the return address and jump to 0x0038.
    Restart,
    /// Mode 2: let the CPU core take its vectored interrupt.
    Vectored,
    /// Another mode: the interrupt counts as raised, nothing is done.
    Skipped,
}

/// Address that a mode 1 interrupt jumps to.
pub const RESTART_VECTOR: u16 = 0x0038;

/// The decision for a pending interrupt.
pub open spec fn interrupt_decision(due: bool, iff1: bool, im: i32) -> InterruptAction {
    if !(due && iff1) {
        InterruptAction::Idle
    } else if im == 2 {
        InterruptAction::Vectored
    } else if im == 1 {
        InterruptAction::Restart
    } else {
        InterruptAction::Skipped
    }
}

/// Decides what to do after an instruction: `due` says whether the board
/// wants an interrupt, `iff1` whether the CPU accepts one, `im` is its
/// interrupt mode.
pub fn decide_interrupt(due: bool, iff1: bool, im: i32) -> (action: InterruptAction)
    ensures
        action == interrupt_decision(due, iff1, im),
{
    if !(due && iff1) {
        InterruptAction::Idle
    } else if im == 2 {
        InterruptAction::Vectored
    } else if im == 1 {
        InterruptAction::Restart
    } else {
        InterruptAction::Skipped
    }
}

} // verus!
