//! A listing of Z80 code: how long an instruction is, what its operands
//! say, and the mnemonic it is shown as.

use vstd::prelude::*;
use crate::guest::{guest_byte, mapped_in_heap, read_guest};
use crate::text::{hex2, hex4, push_hex2, push_hex4, push_text, string_of};

verus! {

/// The opcode takes a 16-bit operand: load of a register pair or of a
/// memory word, absolute jump, call.
pub open spec fn takes_word(opcode: u8) -> bool {
    ||| (opcode < 0x40 && opcode % 16 == 1)
    ||| opcode == 0x22
    ||| opcode == 0x2A
    ||| opcode == 0x32
    ||| opcode == 0x3A
    ||| (opcode >= 0xC0 && (opcode % 8 == 2 || opcode % 8 == 4))
    ||| opcode == 0xC3
    ||| opcode == 0xCD
}

/// The opcode takes one more byte: an immediate operand, a displacement,
/// a port number, or the second byte behind a prefix.
pub open spec fn takes_byte(opcode: u8) -> bool {
    ||| (opcode < 0x40 && opcode % 8 == 6)
    ||| (0x10 <= opcode < 0x40 && opcode % 8 == 0)
    ||| (opcode >= 0xC0 && opcode % 8 == 6)
    ||| opcode == 0xD3
    ||| opcode == 0xDB
    ||| opcode == 0xCB
    ||| opcode == 0xDD
    ||| opcode == 0xED
    ||| opcode == 0xFD
}

/// Bytes that the listing gives to the instruction that starts with `opcode`.
pub open spec fn length_of(opcode: u8) -> u8 {
    if takes_word(opcode) {
        3
    } else if takes_byte(opcode) {
        2
    } else {
        1
    }
}

/// Length of the instruction that starts with `opcode`, in bytes.
pub fn instruction_length(opcode: u8) -> (len: u8)
    ensures
        len == length_of(opcode),
        1 <= len <= 3,
{
    match opcode {
        0x01 | 0x11 | 0x21 | 0x31 | 0x22 | 0x2A | 0x32 | 0x3A => 3,
        0xC2 | 0xC3 | 0xC4 | 0xCA | 0xCC | 0xCD | 0xD2 | 0xD4 | 0xDA | 0xDC => 3,
        0xE2 | 0xE4 | 0xEA | 0xEC | 0xF2 | 0xF4 | 0xFA | 0xFC => 3,
        0x06 | 0x0E | 0x16 | 0x1E | 0x26 | 0x2E | 0x36 | 0x3E => 2,
        0x10 | 0x18 | 0x20 | 0x28 | 0x30 | 0x38 => 2,
        0xC6 | 0xCE | 0xD6 | 0xDE | 0xE6 | 0xEE | 0xF6 | 0xFE => 2,
        0xD3 | 0xDB | 0xCB | 0xDD | 0xED | 0xFD => 2,
        _ => 1,
    }
}

/// The 16-bit operand made of the two bytes behind the opcode, low byte
/// first.
pub open spec fn word_of(low: u8, high: u8) -> u16 {
    (low + 256 * high) as u16
}

/// The 16-bit operand of an instruction.
pub fn operand_word(low: u8, high: u8) -> (word: u16)
    ensures
        word == word_of(low, high),
{
    low as u16 + 256 * (high as u16)
}

/// Where a relative jump at `addr` with displacement byte `disp` leads: two
/// bytes on, then forward by the displacement, or back where it stands for
/// a negative number; all within 16 bits.
pub open spec fn jump_target(addr: u16, disp: u8) -> u16 {
    if disp < 0x80 {
        ((addr + 2 + disp) % 0x10000) as u16
    } else {
        ((addr + 2 + disp - 0x100 + 0x10000) % 0x10000) as u16
    }
}

/// The target of a relative jump.
pub fn relative_target(addr: u16, disp: u8) -> (target: u16)
    ensures
        target == jump_target(addr, disp),
{
    let base: u32 = addr as u32 + 2 + disp as u32;
    let moved: u32 = if disp < 0x80 {
        base
    } else {
        base + 0x10000 - 0x100
    };
    (moved % 0x10000) as u16
}

/// What the listing needs of one instruction.
#[derive(Clone, Copy, PartialEq, Eq, Structural, Debug)]
pub struct Decoded {
    pub opcode: u8,
    /// The byte behind the opcode.
    pub byte1: u8,
    /// The word behind the opcode.
    pub word: u16,
    /// Target, were the instruction a relative jump.
    pub target: u16,
    /// Length in bytes.
    pub len: u8,
    /// Bits 3 to 5 of the opcode: the destination register of a load, the
    /// operation of an arithmetic instruction.
    pub row: u8,
    /// Bits 0 to 2 of the opcode: the source register.
    pub column: u8,
}

/// The address `n` bytes behind `addr`, wrapping at the end of the address
/// space.
pub open spec fn addr_plus(addr: u16, n: int) -> int {
    (addr + n) % 0x10000
}

/// The instruction that stands at `addr` in guest memory.
pub open spec fn decoded_at(mem: rz80::Memory, addr: u16) -> Decoded {
    let opcode = guest_byte(mem, addr as int);
    let byte1 = guest_byte(mem, addr_plus(addr, 1));
    Decoded {
        opcode,
        byte1,
        word: word_of(byte1, guest_byte(mem, addr_plus(addr, 2))),
        target: jump_target(addr, byte1),
        len: length_of(opcode),
        row: ((opcode / 8) % 8) as u8,
        column: (opcode % 8) as u8,
    }
}

/// Reads the instruction at `addr` from guest memory.
pub fn decode_instruction(mem: &rz80::Memory, addr: u16) -> (d: Decoded)
    requires
        mapped_in_heap(*mem),
    ensures
        d == decoded_at(*mem, addr),
{
    let opcode: u8 = read_guest(mem, addr);
    let byte1: u8 = read_guest(mem, addr.wrapping_add(1));
    let byte2: u8 = read_guest(mem, addr.wrapping_add(2));
    Decoded {
        opcode,
        byte1,
        word: operand_word(byte1, byte2),
        target: relative_target(addr, byte1),
        len: instruction_length(opcode),
        row: (opcode / 8) % 8,
        column: opcode % 8,
    }
}

/// The operand that a mnemonic shows.
#[derive(Clone, Copy, PartialEq, Eq, Structural, Debug)]
pub enum Operand {
    /// None.
    Plain,
    /// The byte behind the opcode, as two hexadecimal digits.
    Byte,
    /// The word behind the opcode, as four hexadecimal digits.
    Word,
    /// The target of the relative jump, as four hexadecimal digits.
    Target,
}

/// Name of the 8-bit register, or of the memory operand, with number `i`.
pub open spec fn reg8_name(i: u8) -> Seq<char> {
    match i {
        0 => "B"@,
        1 => "C"@,
        2 => "D"@,
        3 => "E"@,
        4 => "H"@,
        5 => "L"@,
        6 => "(HL)"@,
        _ => "A"@,
    }
}

/// Name of the arithmetic operation with number `i`, as it stands before
/// its operand.
pub open spec fn alu_name(i: u8) -> Seq<char> {
    match i {
        0 => "ADD A,"@,
        1 => "ADC A,"@,
        2 => "SUB "@,
        3 => "SBC A,"@,
        4 => "AND "@,
        5 => "XOR "@,
        6 => "OR "@,
        _ => "CP "@,
    }
}

/// The mnemonic of an opcode of the first or the last quarter of the opcode
/// table: the text before the operand, the operand, the text behind it.
pub open spec fn table_entry(opcode: u8) -> (Seq<char>, Operand, Seq<char>) {
    match opcode {
        0x00 => ("NOP"@, Operand::Plain, ""@),
        0x01 => ("LD BC,$"@, Operand::Word, ""@),
        0x02 => ("LD (BC),A"@, Operand::Plain, ""@),
        0x03 => ("INC BC"@, Operand::Plain, ""@),
        0x04 => ("INC B"@, Operand::Plain, ""@),
        0x05 => ("DEC B"@, Operand::Plain, ""@),
        0x06 => ("LD B,$"@, Operand::Byte, ""@),
        0x07 => ("RLCA"@, Operand::Plain, ""@),
        0x08 => ("EX AF,AF'"@, Operand::Plain, ""@),
        0x09 => ("ADD HL,BC"@, Operand::Plain, ""@),
        0x0A => ("LD A,(BC)"@, Operand::Plain, ""@),
        0x0B => ("DEC BC"@, Operand::Plain, ""@),
        0x0C => ("INC C"@, Operand::Plain, ""@),
        0x0D => ("DEC C"@, Operand::Plain, ""@),
        0x0E => ("LD C,$"@, Operand::Byte, ""@),
        0x0F => ("RRCA"@, Operand::Plain, ""@),
        0x10 => ("DJNZ $"@, Operand::Target, ""@),
        0x11 => ("LD DE,$"@, Operand::Word, ""@),
        0x12 => ("LD (DE),A"@, Operand::Plain, ""@),
        0x13 => ("INC DE"@, Operand::Plain, ""@),
        0x14 => ("INC D"@, Operand::Plain, ""@),
        0x15 => ("DEC D"@, Operand::Plain, ""@),
        0x16 => ("LD D,$"@, Operand::Byte, ""@),
        0x17 => ("RLA"@, Operand::Plain, ""@),
        0x18 => ("JR $"@, Operand::Target, ""@),
        0x19 => ("ADD HL,DE"@, Operand::Plain, ""@),
        0x1A => ("LD A,(DE)"@, Operand::Plain, ""@),
        0x1B => ("DEC DE"@, Operand::Plain, ""@),
        0x1C => ("INC E"@, Operand::Plain, ""@),
        0x1D => ("DEC E"@, Operand::Plain, ""@),
        0x1E => ("LD E,$"@, Operand::Byte, ""@),
        0x1F => ("RRA"@, Operand::Plain, ""@),
        0x20 => ("JR NZ,$"@, Operand::Target, ""@),
        0x21 => ("LD HL,$"@, Operand::Word, ""@),
        0x22 => ("LD ($"@, Operand::Word, "),HL"@),
        0x23 => ("INC HL"@, Operand::Plain, ""@),
        0x24 => ("INC H"@, Operand::Plain, ""@),
        0x25 => ("DEC H"@, Operand::Plain, ""@),
        0x26 => ("LD H,$"@, Operand::Byte, ""@),
        0x27 => ("DAA"@, Operand::Plain, ""@),
        0x28 => ("JR Z,$"@, Operand::Target, ""@),
        0x29 => ("ADD HL,HL"@, Operand::Plain, ""@),
        0x2A => ("LD HL,($"@, Operand::Word, ")"@),
        0x2B => ("DEC HL"@, Operand::Plain, ""@),
        0x2C => ("INC L"@, Operand::Plain, ""@),
        0x2D => ("DEC L"@, Operand::Plain, ""@),
        0x2E => ("LD L,$"@, Operand::Byte, ""@),
        0x2F => ("CPL"@, Operand::Plain, ""@),
        0x30 => ("JR NC,$"@, Operand::Target, ""@),
        0x31 => ("LD SP,$"@, Operand::Word, ""@),
        0x32 => ("LD ($"@, Operand::Word, "),A"@),
        0x33 => ("INC SP"@, Operand::Plain, ""@),
        0x34 => ("INC (HL)"@, Operand::Plain, ""@),
        0x35 => ("DEC (HL)"@, Operand::Plain, ""@),
        0x36 => ("LD (HL),$"@, Operand::Byte, ""@),
        0x37 => ("SCF"@, Operand::Plain, ""@),
        0x38 => ("JR C,$"@, Operand::Target, ""@),
        0x39 => ("ADD HL,SP"@, Operand::Plain, ""@),
        0x3A => ("LD A,($"@, Operand::Word, ")"@),
        0x3B => ("DEC SP"@, Operand::Plain, ""@),
        0x3C => ("INC A"@, Operand::Plain, ""@),
        0x3D => ("DEC A"@, Operand::Plain, ""@),
        0x3E => ("LD A,$"@, Operand::Byte, ""@),
        0x3F => ("CCF"@, Operand::Plain, ""@),
        0xC0 => ("RET NZ"@, Operand::Plain, ""@),
        0xC1 => ("POP BC"@, Operand::Plain, ""@),
        0xC2 => ("JP NZ,$"@, Operand::Word, ""@),
        0xC3 => ("JP $"@, Operand::Word, ""@),
        0xC4 => ("CALL NZ,$"@, Operand::Word, ""@),
        0xC5 => ("PUSH BC"@, Operand::Plain, ""@),
        0xC6 => ("ADD A,$"@, Operand::Byte, ""@),
        0xC7 => ("RST $00"@, Operand::Plain, ""@),
        0xC8 => ("RET Z"@, Operand::Plain, ""@),
        0xC9 => ("RET"@, Operand::Plain, ""@),
        0xCA => ("JP Z,$"@, Operand::Word, ""@),
        0xCB => ("CB $"@, Operand::Byte, ""@),
        0xCC => ("CALL Z,$"@, Operand::Word, ""@),
        0xCD => ("CALL $"@, Operand::Word, ""@),
        0xCE => ("ADC A,$"@, Operand::Byte, ""@),
        0xCF => ("RST $08"@, Operand::Plain, ""@),
        0xD0 => ("RET NC"@, Operand::Plain, ""@),
        0xD1 => ("POP DE"@, Operand::Plain, ""@),
        0xD2 => ("JP NC,$"@, Operand::Word, ""@),
        0xD3 => ("OUT ($"@, Operand::Byte, "),A"@),
        0xD4 => ("CALL NC,$"@, Operand::Word, ""@),
        0xD5 => ("PUSH DE"@, Operand::Plain, ""@),
        0xD6 => ("SUB $"@, Operand::Byte, ""@),
        0xD7 => ("RST $10"@, Operand::Plain, ""@),
        0xD8 => ("RET C"@, Operand::Plain, ""@),
        0xD9 => ("EXX"@, Operand::Plain, ""@),
        0xDA => ("JP C,$"@, Operand::Word, ""@),
        0xDB => ("IN A,($"@, Operand::Byte, ")"@),
        0xDC => ("CALL C,$"@, Operand::Word, ""@),
        0xDD => ("DD $"@, Operand::Byte, ""@),
        0xDE => ("SBC A,$"@, Operand::Byte, ""@),
        0xDF => ("RST $18"@, Operand::Plain, ""@),
        0xE0 => ("RET PO"@, Operand::Plain, ""@),
        0xE1 => ("POP HL"@, Operand::Plain, ""@),
        0xE2 => ("JP PO,$"@, Operand::Word, ""@),
        0xE3 => ("EX (SP),HL"@, Operand::Plain, ""@),
        0xE4 => ("CALL PO,$"@, Operand::Word, ""@),
        0xE5 => ("PUSH HL"@, Operand::Plain, ""@),
        0xE6 => ("AND $"@, Operand::Byte, ""@),
        0xE7 => ("RST $20"@, Operand::Plain, ""@),
        0xE8 => ("RET PE"@, Operand::Plain, ""@),
        0xE9 => ("JP (HL)"@, Operand::Plain, ""@),
        0xEA => ("JP PE,$"@, Operand::Word, ""@),
        0xEB => ("EX DE,HL"@, Operand::Plain, ""@),
        0xEC => ("CALL PE,$"@, Operand::Word, ""@),
        0xED => ("ED $"@, Operand::Byte, ""@),
        0xEE => ("XOR $"@, Operand::Byte, ""@),
        0xEF => ("RST $28"@, Operand::Plain, ""@),
        0xF0 => ("RET P"@, Operand::Plain, ""@),
        0xF1 => ("POP AF"@, Operand::Plain, ""@),
        0xF2 => ("JP P,$"@, Operand::Word, ""@),
        0xF3 => ("DI"@, Operand::Plain, ""@),
        0xF4 => ("CALL P,$"@, Operand::Word, ""@),
        0xF5 => ("PUSH AF"@, Operand::Plain, ""@),
        0xF6 => ("OR $"@, Operand::Byte, ""@),
        0xF7 => ("RST $30"@, Operand::Plain, ""@),
        0xF8 => ("RET M"@, Operand::Plain, ""@),
        0xF9 => ("LD SP,HL"@, Operand::Plain, ""@),
        0xFA => ("JP M,$"@, Operand::Word, ""@),
        0xFB => ("EI"@, Operand::Plain, ""@),
        0xFC => ("CALL M,$"@, Operand::Word, ""@),
        0xFD => ("FD $"@, Operand::Byte, ""@),
        0xFE => ("CP $"@, Operand::Byte, ""@),
        0xFF => ("RST $38"@, Operand::Plain, ""@),
        _ => (""@, Operand::Plain, ""@),
    }
}

/// The operand as the listing shows it.
pub open spec fn operand_text(kind: Operand, d: Decoded) -> Seq<char> {
    match kind {
        Operand::Plain => Seq::empty(),
        Operand::Byte => hex2(d.byte1),
        Operand::Word => hex4(d.word),
        Operand::Target => hex4(d.target),
    }
}

/// The mnemonic of a decoded instruction. Register loads and arithmetic on
/// registers are named by the row and the column of the opcode; every other
/// opcode by its entry in the table.
pub open spec fn mnemonic_of(d: Decoded) -> Seq<char> {
    if d.opcode == 0x76 {
        "HALT"@
    } else if 0x40 <= d.opcode < 0x80 {
        "LD "@ + reg8_name(d.row) + ","@ + reg8_name(d.column)
    } else if 0x80 <= d.opcode < 0xC0 {
        alu_name(d.row) + reg8_name(d.column)
    } else {
        table_entry(d.opcode).0 + operand_text(table_entry(d.opcode).1, d) + table_entry(
            d.opcode,
        ).2
    }
}

/// Name of an 8-bit register.
pub fn reg8(i: u8) -> (name: &'static str)
    ensures
        name@ == reg8_name(i),
{
    match i {
        0 => "B",
        1 => "C",
        2 => "D",
        3 => "E",
        4 => "H",
        5 => "L",
        6 => "(HL)",
        _ => "A",
    }
}

/// Name of an arithmetic operation.
pub fn alu(i: u8) -> (name: &'static str)
    ensures
        name@ == alu_name(i),
{
    match i {
        0 => "ADD A,",
        1 => "ADC A,",
        2 => "SUB ",
        3 => "SBC A,",
        4 => "AND ",
        5 => "XOR ",
        6 => "OR ",
        _ => "CP ",
    }
}

/// Looks an opcode up in the table.
pub fn lookup(opcode: u8) -> (entry: (&'static str, Operand, &'static str))
    ensures
        entry.0@ == table_entry(opcode).0,
        entry.1 == table_entry(opcode).1,
        entry.2@ == table_entry(opcode).2,
{
    match opcode {
        0x00 => ("NOP", Operand::Plain, ""),
        0x01 => ("LD BC,$", Operand::Word, ""),
        0x02 => ("LD (BC),A", Operand::Plain, ""),
        0x03 => ("INC BC", Operand::Plain, ""),
        0x04 => ("INC B", Operand::Plain, ""),
        0x05 => ("DEC B", Operand::Plain, ""),
        0x06 => ("LD B,$", Operand::Byte, ""),
        0x07 => ("RLCA", Operand::Plain, ""),
        0x08 => ("EX AF,AF'", Operand::Plain, ""),
        0x09 => ("ADD HL,BC", Operand::Plain, ""),
        0x0A => ("LD A,(BC)", Operand::Plain, ""),
        0x0B => ("DEC BC", Operand::Plain, ""),
        0x0C => ("INC C", Operand::Plain, ""),
        0x0D => ("DEC C", Operand::Plain, ""),
        0x0E => ("LD C,$", Operand::Byte, ""),
        0x0F => ("RRCA", Operand::Plain, ""),
        0x10 => ("DJNZ $", Operand::Target, ""),
        0x11 => ("LD DE,$", Operand::Word, ""),
        0x12 => ("LD (DE),A", Operand::Plain, ""),
        0x13 => ("INC DE", Operand::Plain, ""),
        0x14 => ("INC D", Operand::Plain, ""),
        0x15 => ("DEC D", Operand::Plain, ""),
        0x16 => ("LD D,$", Operand::Byte, ""),
        0x17 => ("RLA", Operand::Plain, ""),
        0x18 => ("JR $", Operand::Target, ""),
        0x19 => ("ADD HL,DE", Operand::Plain, ""),
        0x1A => ("LD A,(DE)", Operand::Plain, ""),
        0x1B => ("DEC DE", Operand::Plain, ""),
        0x1C => ("INC E", Operand::Plain, ""),
        0x1D => ("DEC E", Operand::Plain, ""),
        0x1E => ("LD E,$", Operand::Byte, ""),
        0x1F => ("RRA", Operand::Plain, ""),
        0x20 => ("JR NZ,$", Operand::Target, ""),
        0x21 => ("LD HL,$", Operand::Word, ""),
        0x22 => ("LD ($", Operand::Word, "),HL"),
        0x23 => ("INC HL", Operand::Plain, ""),
        0x24 => ("INC H", Operand::Plain, ""),
        0x25 => ("DEC H", Operand::Plain, ""),
        0x26 => ("LD H,$", Operand::Byte, ""),
        0x27 => ("DAA", Operand::Plain, ""),
        0x28 => ("JR Z,$", Operand::Target, ""),
        0x29 => ("ADD HL,HL", Operand::Plain, ""),
        0x2A => ("LD HL,($", Operand::Word, ")"),
        0x2B => ("DEC HL", Operand::Plain, ""),
        0x2C => ("INC L", Operand::Plain, ""),
        0x2D => ("DEC L", Operand::Plain, ""),
        0x2E => ("LD L,$", Operand::Byte, ""),
        0x2F => ("CPL", Operand::Plain, ""),
        0x30 => ("JR NC,$", Operand::Target, ""),
        0x31 => ("LD SP,$", Operand::Word, ""),
        0x32 => ("LD ($", Operand::Word, "),A"),
        0x33 => ("INC SP", Operand::Plain, ""),
        0x34 => ("INC (HL)", Operand::Plain, ""),
        0x35 => ("DEC (HL)", Operand::Plain, ""),
        0x36 => ("LD (HL),$", Operand::Byte, ""),
        0x37 => ("SCF", Operand::Plain, ""),
        0x38 => ("JR C,$", Operand::Target, ""),
        0x39 => ("ADD HL,SP", Operand::Plain, ""),
        0x3A => ("LD A,($", Operand::Word, ")"),
        0x3B => ("DEC SP", Operand::Plain, ""),
        0x3C => ("INC A", Operand::Plain, ""),
        0x3D => ("DEC A", Operand::Plain, ""),
        0x3E => ("LD A,$", Operand::Byte, ""),
        0x3F => ("CCF", Operand::Plain, ""),
        0xC0 => ("RET NZ", Operand::Plain, ""),
        0xC1 => ("POP BC", Operand::Plain, ""),
        0xC2 => ("JP NZ,$", Operand::Word, ""),
        0xC3 => ("JP $", Operand::Word, ""),
        0xC4 => ("CALL NZ,$", Operand::Word, ""),
        0xC5 => ("PUSH BC", Operand::Plain, ""),
        0xC6 => ("ADD A,$", Operand::Byte, ""),
        0xC7 => ("RST $00", Operand::Plain, ""),
        0xC8 => ("RET Z", Operand::Plain, ""),
        0xC9 => ("RET", Operand::Plain, ""),
        0xCA => ("JP Z,$", Operand::Word, ""),
        0xCB => ("CB $", Operand::Byte, ""),
        0xCC => ("CALL Z,$", Operand::Word, ""),
        0xCD => ("CALL $", Operand::Word, ""),
        0xCE => ("ADC A,$", Operand::Byte, ""),
        0xCF => ("RST $08", Operand::Plain, ""),
        0xD0 => ("RET NC", Operand::Plain, ""),
        0xD1 => ("POP DE", Operand::Plain, ""),
        0xD2 => ("JP NC,$", Operand::Word, ""),
        0xD3 => ("OUT ($", Operand::Byte, "),A"),
        0xD4 => ("CALL NC,$", Operand::Word, ""),
        0xD5 => ("PUSH DE", Operand::Plain, ""),
        0xD6 => ("SUB $", Operand::Byte, ""),
        0xD7 => ("RST $10", Operand::Plain, ""),
        0xD8 => ("RET C", Operand::Plain, ""),
        0xD9 => ("EXX", Operand::Plain, ""),
        0xDA => ("JP C,$", Operand::Word, ""),
        0xDB => ("IN A,($", Operand::Byte, ")"),
        0xDC => ("CALL C,$", Operand::Word, ""),
        0xDD => ("DD $", Operand::Byte, ""),
        0xDE => ("SBC A,$", Operand::Byte, ""),
        0xDF => ("RST $18", Operand::Plain, ""),
        0xE0 => ("RET PO", Operand::Plain, ""),
        0xE1 => ("POP HL", Operand::Plain, ""),
        0xE2 => ("JP PO,$", Operand::Word, ""),
        0xE3 => ("EX (SP),HL", Operand::Plain, ""),
        0xE4 => ("CALL PO,$", Operand::Word, ""),
        0xE5 => ("PUSH HL", Operand::Plain, ""),
        0xE6 => ("AND $", Operand::Byte, ""),
        0xE7 => ("RST $20", Operand::Plain, ""),
        0xE8 => ("RET PE", Operand::Plain, ""),
        0xE9 => ("JP (HL)", Operand::Plain, ""),
        0xEA => ("JP PE,$", Operand::Word, ""),
        0xEB => ("EX DE,HL", Operand::Plain, ""),
        0xEC => ("CALL PE,$", Operand::Word, ""),
        0xED => ("ED $", Operand::Byte, ""),
        0xEE => ("XOR $", Operand::Byte, ""),
        0xEF => ("RST $28", Operand::Plain, ""),
        0xF0 => ("RET P", Operand::Plain, ""),
        0xF1 => ("POP AF", Operand::Plain, ""),
        0xF2 => ("JP P,$", Operand::Word, ""),
        0xF3 => ("DI", Operand::Plain, ""),
        0xF4 => ("CALL P,$", Operand::Word, ""),
        0xF5 => ("PUSH AF", Operand::Plain, ""),
        0xF6 => ("OR $", Operand::Byte, ""),
        0xF7 => ("RST $30", Operand::Plain, ""),
        0xF8 => ("RET M", Operand::Plain, ""),
        0xF9 => ("LD SP,HL", Operand::Plain, ""),
        0xFA => ("JP M,$", Operand::Word, ""),
        0xFB => ("EI", Operand::Plain, ""),
        0xFC => ("CALL M,$", Operand::Word, ""),
        0xFD => ("FD $", Operand::Byte, ""),
        0xFE => ("CP $", Operand::Byte, ""),
        0xFF => ("RST $38", Operand::Plain, ""),
        _ => ("", Operand::Plain, ""),
    }
}

/// The mnemonic of a decoded instruction.
pub fn mnemonic(d: &Decoded) -> (text: String)
    ensures
        text@ == mnemonic_of(*d),
{
    let mut out: Vec<char> = Vec::new();
    if d.opcode == 0x76 {
        push_text(&mut out, "HALT");
    } else if d.opcode >= 0x40 && d.opcode < 0x80 {
        push_text(&mut out, "LD ");
        push_text(&mut out, reg8(d.row));
        push_text(&mut out, ",");
        push_text(&mut out, reg8(d.column));
    } else if d.opcode >= 0x80 && d.opcode < 0xC0 {
        push_text(&mut out, alu(d.row));
        push_text(&mut out, reg8(d.column));
    } else {
        let entry = lookup(d.opcode);
        push_text(&mut out, entry.0);
        match entry.1 {
            Operand::Plain => {},
            Operand::Byte => push_hex2(&mut out, d.byte1),
            Operand::Word => push_hex4(&mut out, d.word),
            Operand::Target => push_hex4(&mut out, d.target),
        }
        push_text(&mut out, entry.2);
    }
    assert(out@ =~= mnemonic_of(*d));
    string_of(&out)
}

/// Disassembles the instruction at `addr`: its mnemonic and its length in
/// bytes.
pub fn disassemble_instruction(mem: &rz80::Memory, addr: u16) -> (out: (String, u8))
    requires
        mapped_in_heap(*mem),
    ensures
        out.0@ == mnemonic_of(decoded_at(*mem, addr)),
        out.1 == length_of(guest_byte(*mem, addr as int)),
{
    let d: Decoded = decode_instruction(mem, addr);
    (mnemonic(&d), d.len)
}

} // verus!
