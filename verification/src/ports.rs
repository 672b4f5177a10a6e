//! Port decoding of the storage card: which register an I/O address selects.

use vstd::prelude::*;

verus! {

/// Command port: takes one opcode per write.
pub const SD_CMD_PORT: u8 = 0x10;

/// First port of the register block; the registers follow it in order.
pub const SD_STATUS_PORT: u8 = 0x11;

pub const SD_DATA_PORT: u8 = 0x12;

pub const SD_FNAME_PORT: u8 = 0x13;

pub const SD_SEEK_LO: u8 = 0x14;

pub const SD_SEEK_HI: u8 = 0x15;

/// Seek cursor, bits 16 to 23.
pub const SD_SEEK_EX: u8 = 0x16;

pub const SD_DMA_LO: u8 = 0x17;

pub const SD_DMA_HI: u8 = 0x18;

/// Block command: a write starts a transfer, a read gives its outcome.
pub const SD_BLOCK_CMD: u8 = 0x19;

/// Bytes moved by one block transfer.
pub const BLOCK_SIZE: usize = 128;

pub const CMD_OPEN_READ: u8 = 0x01;

pub const CMD_CREATE: u8 = 0x02;

pub const CMD_OPEN_APPEND: u8 = 0x03;

pub const CMD_SEEK_START: u8 = 0x04;

pub const CMD_CLOSE: u8 = 0x05;

pub const CMD_DIR: u8 = 0x06;

pub const CMD_OPEN_RW: u8 = 0x07;

/// Seek to the cursor; `CMD_SEEK_16` is a second code for the same command.
pub const CMD_SEEK_BYTE: u8 = 0x08;

pub const CMD_SEEK_16: u8 = 0x09;

/// Status bit 0: the card is idle and takes a command.
pub const STATUS_READY: u8 = 0x01;

/// Status bit 1: the last command failed.
pub const STATUS_ERROR: u8 = 0x02;

/// Status bit 7: a file or a directory listing is open.
pub const STATUS_DATA: u8 = 0x80;

/// A register of the card.
#[derive(Clone, Copy, PartialEq, Eq, Structural, Debug)]
pub enum SdRegister {
    Command,
    Status,
    Data,
    Filename,
    SeekLow,
    SeekHigh,
    SeekExtended,
    DmaLow,
    DmaHigh,
    BlockCommand,
}

/// The register at a distance of `offset` ports from the status port.
pub open spec fn register_at_offset(offset: int) -> Option<SdRegister> {
    if offset == 0 {
        Some(SdRegister::Status)
    } else if offset == 1 {
        Some(SdRegister::Data)
    } else if offset == 2 {
        Some(SdRegister::Filename)
    } else if offset == 3 {
        Some(SdRegister::SeekLow)
    } else if offset == 4 {
        Some(SdRegister::SeekHigh)
    } else if offset == 5 {
        Some(SdRegister::SeekExtended)
    } else if offset == 6 {
        Some(SdRegister::DmaLow)
    } else if offset == 7 {
        Some(SdRegister::DmaHigh)
    } else if offset == 8 {
        Some(SdRegister::BlockCommand)
    } else {
        None
    }
}

/// The register that `port` selects, if the card answers at that address.
pub open spec fn register_at(port: u8) -> Option<SdRegister> {
    if port == SD_CMD_PORT {
        Some(SdRegister::Command)
    } else {
        register_at_offset(port - SD_STATUS_PORT)
    }
}

/// Classifies a port address.
pub fn decode_port(port: u8) -> (r: Option<SdRegister>)
    ensures
        r == register_at(port),
{
    match port {
        SD_CMD_PORT => Some(SdRegister::Command),
        SD_STATUS_PORT => Some(SdRegister::Status),
        SD_DATA_PORT => Some(SdRegister::Data),
        SD_FNAME_PORT => Some(SdRegister::Filename),
        SD_SEEK_LO => Some(SdRegister::SeekLow),
        SD_SEEK_HI => Some(SdRegister::SeekHigh),
        SD_SEEK_EX => Some(SdRegister::SeekExtended),
        SD_DMA_LO => Some(SdRegister::DmaLow),
        SD_DMA_HI => Some(SdRegister::DmaHigh),
        SD_BLOCK_CMD => Some(SdRegister::BlockCommand),
        _ => None,
    }
}

} // verus!
