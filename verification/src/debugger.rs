//! What the debugger shows, worked out from the machine's state: the text
//! of the flags, rows of the memory pane, entries of the stack pane, the
//! place of the cursor, and what its keys do to the run speed.

use vstd::prelude::*;
use vstd::string::StrSliceExecFns;
use crate::disasm::addr_plus;
use crate::guest::{guest_byte, mapped_in_heap, read_guest};
use crate::terminal::TERM_ROWS;
use crate::text::{hex2, push_hex2, string_of};

verus! {

/// Most cycles that one frame may run.
pub const MAX_CYCLES_PER_FRAME: u32 = 1_000_000;

/// Fewest cycles that one frame may run.
pub const MIN_CYCLES_PER_FRAME: u32 = 1000;

/// The letter of a flag that is set, a dash for one that is clear.
pub open spec fn flag_char(flags: u8, mask: u8, name: char) -> char {
    if flags & mask != 0 {
        name
    } else {
        '-'
    }
}

/// The flags register as the register pane shows it: S, Z, H, P, N and C
/// in the order of their bits, the two unused bits as dashes.
pub open spec fn flags_shown(flags: u8) -> Seq<char> {
    seq![
        flag_char(flags, 0x80, 'S'),
        flag_char(flags, 0x40, 'Z'),
        '-',
        flag_char(flags, 0x10, 'H'),
        '-',
        flag_char(flags, 0x04, 'P'),
        flag_char(flags, 0x02, 'N'),
        flag_char(flags, 0x01, 'C'),
    ]
}

fn flag_letter(flags: u8, mask: u8, name: char) -> (c: char)
    ensures
        c == flag_char(flags, mask, name),
{
    if flags & mask != 0 {
        name
    } else {
        '-'
    }
}

/// The text of the flags register.
pub fn flags_text(flags: u8) -> (text: String)
    ensures
        text@ == flags_shown(flags),
{
    let mut out: Vec<char> = Vec::new();
    out.push(flag_letter(flags, 0x80, 'S'));
    out.push(flag_letter(flags, 0x40, 'Z'));
    out.push('-');
    out.push(flag_letter(flags, 0x10, 'H'));
    out.push('-');
    out.push(flag_letter(flags, 0x04, 'P'));
    out.push(flag_letter(flags, 0x02, 'N'));
    out.push(flag_letter(flags, 0x01, 'C'));
    assert(out@ =~= flags_shown(flags));
    string_of(&out)
}

/// A byte as the memory pane shows it in its text column: itself where it
/// is a printable ASCII character, a full stop otherwise.
pub open spec fn printable(byte: u8) -> char {
    if 0x20 <= byte < 0x7F {
        byte as char
    } else {
        '.'
    }
}

/// The `n` bytes that the guest reads from `addr` on, wrapping at the end
/// of the address space.
pub open spec fn bytes_from(mem: rz80::Memory, addr: u16, n: nat) -> Seq<u8> {
    Seq::new(n, |i: int| guest_byte(mem, addr_plus(addr, i)))
}

/// Bytes in hexadecimal, each followed by a space.
pub open spec fn hex_bytes(bytes: Seq<u8>) -> Seq<char>
    decreases bytes.len(),
{
    if bytes.len() == 0 {
        Seq::empty()
    } else {
        hex_bytes(bytes.drop_last()) + hex2(bytes.last()) + seq![' ']
    }
}

/// Bytes as the text column shows them.
pub open spec fn text_bytes(bytes: Seq<u8>) -> Seq<char> {
    Seq::new(bytes.len(), |i: int| printable(bytes[i]))
}

/// Reads `n` bytes of guest memory from `addr` on.
pub fn read_bytes(mem: &rz80::Memory, addr: u16, n: u8) -> (bytes: Vec<u8>)
    requires
        mapped_in_heap(*mem),
    ensures
        bytes@ == bytes_from(*mem, addr, n as nat),
{
    let mut bytes: Vec<u8> = Vec::new();
    let mut i: u8 = 0;
    while i < n
        invariant
            i <= n,
            mapped_in_heap(*mem),
            bytes@.len() == i,
            forall|j: int| 0 <= j < i ==> #[trigger] bytes@[j] == guest_byte(*mem, addr_plus(addr, j)),
        decreases n - i,
    {
        bytes.push(read_guest(mem, addr.wrapping_add(i as u16)));
        i += 1;
    }
    assert(bytes@ =~= bytes_from(*mem, addr, n as nat));
    bytes
}

/// Bytes in hexadecimal, each followed by a space.
pub fn hex_text(bytes: &Vec<u8>) -> (text: String)
    ensures
        text@ == hex_bytes(bytes@),
{
    let mut out: Vec<char> = Vec::new();
    let mut i: usize = 0;
    while i < bytes.len()
        invariant
            i <= bytes@.len(),
            out@ == hex_bytes(bytes@.subrange(0, i as int)),
        decreases bytes@.len() - i,
    {
        push_hex2(&mut out, bytes[i]);
        out.push(' ');
        i += 1;
        proof {
            let now = bytes@.subrange(0, i as int);
            assert(now.drop_last() =~= bytes@.subrange(0, i - 1));
            assert(out@ =~= hex_bytes(now.drop_last()) + hex2(now.last()) + seq![' ']);
        }
    }
    assert(bytes@.subrange(0, bytes@.len() as int) =~= bytes@);
    string_of(&out)
}

/// Bytes as text: printable ASCII as it is, a full stop for the rest.
pub fn ascii_text(bytes: &Vec<u8>) -> (text: String)
    ensures
        text@ == text_bytes(bytes@),
{
    let mut out: Vec<char> = Vec::new();
    let mut i: usize = 0;
    while i < bytes.len()
        invariant
            i <= bytes@.len(),
            out@.len() == i,
            forall|j: int| 0 <= j < i ==> #[trigger] out@[j] == printable(bytes@[j]),
        decreases bytes@.len() - i,
    {
        let b: u8 = bytes[i];
        let c: char = if b >= 0x20 && b < 0x7F {
            b as char
        } else {
            '.'
        };
        out.push(c);
        i += 1;
    }
    assert(out@ =~= text_bytes(bytes@));
    string_of(&out)
}

/// Address of entry `i` of the stack pane: two bytes per entry from the
/// stack pointer on, within 16 bits.
pub open spec fn stack_slot(sp: u16, i: int) -> int {
    (sp + 2 * i) % 0x10000
}

/// Entry `i` of the stack pane: its address and the word that stands
/// there, low byte first.
pub fn stack_entry(mem: &rz80::Memory, sp: u16, i: usize) -> (entry: (u16, u16))
    requires
        mapped_in_heap(*mem),
    ensures
        entry.0 == stack_slot(sp, i as int),
        entry.1 == guest_byte(*mem, entry.0 as int) + 256 * guest_byte(
            *mem,
            addr_plus(entry.0, 1),
        ),
{
    let step: usize = (i % 0x8000) * 2;
    assert((sp + 2 * i) % 0x10000 == (sp + 2 * (i % 0x8000)) % 0x10000) by (nonlinear_arith)
        requires
            0 <= sp < 0x10000,
            0 <= i,
    ;
    let addr: u16 = ((sp as usize + step) % 0x10000) as u16;
    let low: u8 = read_guest(mem, addr);
    let high: u8 = read_guest(mem, addr.wrapping_add(1));
    (addr, low as u16 + 256 * (high as u16))
}

/// The row of the terminal pane that the cursor is on, where the pane of
/// `visible_lines` rows shows the last rows of the screen; `None` where the
/// cursor's row is above the pane.
pub open spec fn cursor_row(cursor_y: int, visible_lines: int) -> Option<int> {
    let first = if TERM_ROWS > visible_lines {
        TERM_ROWS - visible_lines
    } else {
        0
    };
    if cursor_y >= first {
        Some(cursor_y - first)
    } else {
        None
    }
}

/// The row of the terminal pane that the cursor is on.
pub fn cursor_line_in_view(cursor_y: usize, visible_lines: usize) -> (row: Option<usize>)
    ensures
        match row {
            Some(r) => cursor_row(cursor_y as int, visible_lines as int) == Some(r as int),
            None => cursor_row(cursor_y as int, visible_lines as int) is None,
        },
{
    let first: usize = if TERM_ROWS > visible_lines {
        TERM_ROWS - visible_lines
    } else {
        0
    };
    if cursor_y >= first {
        Some(cursor_y - first)
    } else {
        None
    }
}

/// A line cut at the cursor: what stands before it, the character under
/// it, a space where the line ends before the cursor, and what stands
/// behind it.
pub fn split_at_cursor(line: &str, cursor_x: usize) -> (parts: (String, char, String))
    ensures
        parts.0@ == if cursor_x < line@.len() {
            line@.subrange(0, cursor_x as int)
        } else {
            line@
        },
        parts.1 == if cursor_x < line@.len() {
            line@[cursor_x as int]
        } else {
            ' '
        },
        parts.2@ == if cursor_x + 1 < line@.len() {
            line@.subrange(cursor_x + 1, line@.len() as int)
        } else {
            Seq::<char>::empty()
        },
{
    let n: usize = line.unicode_len();
    let mut before: Vec<char> = Vec::new();
    let mut after: Vec<char> = Vec::new();
    let mut under: char = ' ';
    let mut i: usize = 0;
    while i < n
        invariant
            i <= n,
            n == line@.len(),
            before@ == if cursor_x < i {
                line@.subrange(0, cursor_x as int)
            } else {
                line@.subrange(0, i as int)
            },
            under == if cursor_x < i {
                line@[cursor_x as int]
            } else {
                ' '
            },
            after@ == if cursor_x + 1 < i {
                line@.subrange(cursor_x + 1, i as int)
            } else {
                Seq::<char>::empty()
            },
        decreases n - i,
    {
        let c: char = line.get_char(i);
        if i < cursor_x {
            before.push(c);
            assert(before@ =~= line@.subrange(0, i + 1));
        } else if i == cursor_x {
            under = c;
        } else {
            after.push(c);
            assert(after@ =~= line@.subrange(cursor_x + 1, i + 1));
        }
        i += 1;
    }
    assert(line@.subrange(0, n as int) =~= line@);
    (string_of(&before), under, string_of(&after))
}

/// The control code that a key sends together with Ctrl: its low five bits.
pub fn control_code(key: u8) -> (code: u8)
    ensures
        code == key & 0x1F,
        code < 0x20,
{
    assert(key & 0x1F < 0x20) by (bit_vector);
    key & 0x1F
}

/// The run speed doubled, up to a million cycles a frame.
pub fn faster(cycles_per_frame: u32) -> (next: u32)
    ensures
        next == if 2 * cycles_per_frame < MAX_CYCLES_PER_FRAME {
            2 * cycles_per_frame
        } else {
            MAX_CYCLES_PER_FRAME as int
        },
{
    if cycles_per_frame >= MAX_CYCLES_PER_FRAME / 2 {
        MAX_CYCLES_PER_FRAME
    } else {
        cycles_per_frame * 2
    }
}

/// The run speed halved, down to a thousand cycles a frame.
pub fn slower(cycles_per_frame: u32) -> (next: u32)
    ensures
        next == if cycles_per_frame / 2 > MIN_CYCLES_PER_FRAME {
            cycles_per_frame / 2
        } else {
            MIN_CYCLES_PER_FRAME
        },
{
    let half: u32 = cycles_per_frame / 2;
    if half > MIN_CYCLES_PER_FRAME {
        half
    } else {
        MIN_CYCLES_PER_FRAME
    }
}

} // verus!
