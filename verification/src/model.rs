//! The card as a mathematical state machine.
//!
//! `SdModel` is the card's state; the functions below say, for each port
//! access, which host service it needs and what state and value it leaves.
//! The executable card is specified against them.

use vstd::prelude::*;
use crate::host::{ReplyModel, RequestModel};
use crate::ports::{
    register_at, SdRegister, BLOCK_SIZE, CMD_CLOSE, CMD_CREATE, CMD_DIR, CMD_OPEN_APPEND,
    CMD_OPEN_READ, CMD_OPEN_RW, CMD_SEEK_16, CMD_SEEK_BYTE, CMD_SEEK_START,
};

verus! {

/// The card's one session.
pub enum TargetModel {
    /// No session.
    Closed,
    /// A host file is open.
    File { readable: bool, writable: bool },
    /// A directory is being listed; `text` is the line in progress and `pos`
    /// the number of its bytes already handed out.
    Directory { text: Seq<u8>, pos: int },
}

/// The card's whole state.
pub struct SdModel {
    /// The pending file name: the bytes of the name last begun. A name
    /// begins with the first byte behind a terminator or behind a command
    /// that took the name before it.
    pub filename: Seq<u8>,
    /// A terminator has ended the pending name: it is complete, and the
    /// next byte begins another.
    pub name_done: bool,
    /// The three lanes of the seek cursor.
    pub seek_low: u8,
    pub seek_high: u8,
    pub seek_ext: u8,
    /// The two lanes of the DMA address.
    pub dma_low: u8,
    pub dma_high: u8,
    /// The last command failed.
    pub error: bool,
    pub target: TargetModel,
    /// Outcome of the last block transfer: 0 for success.
    pub block_status: u8,
    /// A guest memory has been bound for block transfers.
    pub memory_bound: bool,
    pub debug: bool,
}

/// Outcome byte of a block transfer that succeeded.
pub const BLOCK_OK: u8 = 0;

/// Outcome byte of a block transfer that failed.
pub const BLOCK_ERROR: u8 = 1;

/// Carriage return.
pub const CR: u8 = 13;

/// Line feed.
pub const LF: u8 = 10;

/// The full stop, of which the two pseudo-entries are made.
pub const DOT: u8 = 46;

/// Value read from a port that selects no readable register.
pub const OPEN_BUS: u8 = 0xFF;

impl SdModel {
    /// The seek cursor: a 24-bit offset made of the three lanes.
    pub open spec fn cursor(self) -> int {
        self.seek_low + 256 * self.seek_high + 65536 * self.seek_ext
    }

    /// The DMA address: a 16-bit guest address made of the two lanes.
    pub open spec fn window(self) -> int {
        self.dma_low + 256 * self.dma_high
    }

    pub open spec fn is_open(self) -> bool {
        !(self.target is Closed)
    }

    pub open spec fn file_open(self) -> bool {
        self.target is File
    }

    /// A file is open and can be read.
    pub open spec fn readable(self) -> bool {
        self.target matches TargetModel::File { readable, .. } && readable
    }

    /// A file is open and can be written.
    pub open spec fn writable(self) -> bool {
        self.target matches TargetModel::File { writable, .. } && writable
    }

    /// The status byte: READY always, ERROR after a failed command, DATA
    /// while a session is open.
    pub open spec fn status_byte(self) -> u8 {
        if self.is_open() {
            if self.error {
                0x83
            } else {
                0x81
            }
        } else {
            if self.error {
                0x03
            } else {
                0x01
            }
        }
    }

    /// The state after a command ended: the session is `target`, and ERROR
    /// is set as `error` says.
    pub open spec fn settle(self, target: TargetModel, error: bool) -> SdModel {
        SdModel { target, error, ..self }
    }

    /// The state after a command that used the file name.
    pub open spec fn opened(self, reply: ReplyModel, writable: bool) -> SdModel {
        let cleared = SdModel { filename: Seq::empty(), name_done: false, ..self };
        if reply is Done {
            cleared.settle(TargetModel::File { readable: true, writable }, false)
        } else {
            cleared.settle(TargetModel::Closed, true)
        }
    }

    /// The state after a seek command.
    pub open spec fn sought(self, reply: ReplyModel) -> SdModel {
        SdModel { error: !(self.file_open() && reply is Done), ..self }
    }
}

/// The state of a card at power-on.
pub open spec fn initial_model() -> SdModel {
    SdModel {
        filename: Seq::empty(),
        name_done: false,
        seek_low: 0,
        seek_high: 0,
        seek_ext: 0,
        dma_low: 0x80,
        dma_high: 0,
        error: false,
        target: TargetModel::Closed,
        block_status: BLOCK_OK,
        memory_bound: false,
        debug: false,
    }
}

/// The entries that stand for a directory itself and for its parent.
pub open spec fn is_pseudo_entry(name: Seq<u8>) -> bool {
    (name.len() == 1 && name[0] == DOT) || (name.len() == 2 && name[0] == DOT && name[1] == DOT)
}

/// The text a directory entry is listed as: its name, then CR and LF.
pub open spec fn entry_line(name: Seq<u8>) -> Seq<u8> {
    name.push(CR).push(LF)
}

/// The host service that command `cmd` needs.
pub open spec fn command_request(s: SdModel, cmd: u8) -> RequestModel {
    if cmd == CMD_OPEN_READ {
        RequestModel::OpenRead(s.filename)
    } else if cmd == CMD_CREATE {
        RequestModel::Create(s.filename)
    } else if cmd == CMD_OPEN_APPEND {
        RequestModel::OpenAppend(s.filename)
    } else if cmd == CMD_OPEN_RW {
        RequestModel::OpenReadWrite(s.filename)
    } else if cmd == CMD_SEEK_START {
        if s.file_open() {
            RequestModel::SeekTo(0)
        } else {
            RequestModel::Nothing
        }
    } else if cmd == CMD_SEEK_BYTE || cmd == CMD_SEEK_16 {
        if s.file_open() {
            RequestModel::SeekTo(s.cursor())
        } else {
            RequestModel::Nothing
        }
    } else if cmd == CMD_CLOSE {
        if s.is_open() {
            RequestModel::Close
        } else {
            RequestModel::Nothing
        }
    } else if cmd == CMD_DIR {
        RequestModel::ListDirectory
    } else {
        RequestModel::Nothing
    }
}

/// The state after command `cmd`, the host having answered `reply`.
pub open spec fn command_step(s: SdModel, cmd: u8, reply: ReplyModel) -> SdModel {
    if cmd == CMD_OPEN_READ {
        s.opened(reply, false)
    } else if cmd == CMD_CREATE || cmd == CMD_OPEN_APPEND || cmd == CMD_OPEN_RW {
        s.opened(reply, true)
    } else if cmd == CMD_SEEK_START || cmd == CMD_SEEK_BYTE || cmd == CMD_SEEK_16 {
        s.sought(reply)
    } else if cmd == CMD_CLOSE {
        s.settle(TargetModel::Closed, false)
    } else if cmd == CMD_DIR {
        if reply is Done {
            s.settle(TargetModel::Directory { text: Seq::empty(), pos: 0 }, false)
        } else {
            s.settle(TargetModel::Closed, true)
        }
    } else {
        s
    }
}

/// The state after `val` was written to the file name port. A zero byte
/// ends the pending name, which stays as it is until a command takes it or
/// another name is begun. Any other byte joins the pending name, or, where
/// that name was ended, begins a new one.
pub open spec fn name_step(s: SdModel, val: u8) -> SdModel {
    if val == 0 {
        SdModel { name_done: true, ..s }
    } else if s.name_done {
        SdModel { filename: seq![val], name_done: false, ..s }
    } else {
        SdModel { filename: s.filename.push(val), ..s }
    }
}

/// A block transfer in the direction that `val` selects can start.
pub open spec fn block_possible(s: SdModel, val: u8) -> bool {
    s.memory_bound && if val == 0 {
        s.readable()
    } else {
        s.writable()
    }
}

/// The host service that a write of `val` to `port` needs.
pub open spec fn write_request(s: SdModel, port: u8, val: u8) -> RequestModel {
    match register_at(port) {
        Some(SdRegister::Command) => command_request(s, val),
        Some(SdRegister::Data) => if s.writable() {
            RequestModel::WriteByte(val)
        } else {
            RequestModel::Nothing
        },
        Some(SdRegister::BlockCommand) => if !block_possible(s, val) {
            RequestModel::Nothing
        } else if val == 0 {
            RequestModel::ReadBlock
        } else {
            RequestModel::WriteBlock
        },
        _ => RequestModel::Nothing,
    }
}

/// The state after a write of `val` to `port`, the host having answered
/// `reply`. A block command that can start leaves the state as it is: the
/// transfer itself records its outcome.
pub open spec fn write_step(s: SdModel, port: u8, val: u8, reply: ReplyModel) -> SdModel {
    match register_at(port) {
        Some(SdRegister::Command) => command_step(s, val, reply),
        Some(SdRegister::Filename) => name_step(s, val),
        Some(SdRegister::SeekLow) => SdModel { seek_low: val, ..s },
        Some(SdRegister::SeekHigh) => SdModel { seek_high: val, ..s },
        Some(SdRegister::SeekExtended) => SdModel { seek_ext: val, ..s },
        Some(SdRegister::DmaLow) => SdModel { dma_low: val, ..s },
        Some(SdRegister::DmaHigh) => SdModel { dma_high: val, ..s },
        Some(SdRegister::BlockCommand) => if block_possible(s, val) {
            s
        } else {
            SdModel { block_status: BLOCK_ERROR, ..s }
        },
        _ => s,
    }
}

/// The host service that a read from `port` needs.
pub open spec fn read_request(s: SdModel, port: u8) -> RequestModel {
    if register_at(port) == Some(SdRegister::Data) {
        match s.target {
            TargetModel::Closed => RequestModel::Nothing,
            TargetModel::File { readable, .. } => if readable {
                RequestModel::ReadByte
            } else {
                RequestModel::Nothing
            },
            TargetModel::Directory { text, pos } => if 0 <= pos < text.len() {
                RequestModel::Nothing
            } else {
                RequestModel::NextEntry
            },
        }
    } else {
        RequestModel::Nothing
    }
}

/// The state and the value after a read from the data port. The value is
/// `None` where the entry that the host handed over is a pseudo-entry: the
/// state is then unchanged and the host is to fetch the next one.
pub open spec fn data_read_step(s: SdModel, reply: ReplyModel) -> (SdModel, Option<u8>) {
    match s.target {
        TargetModel::Closed => (s, Some(0u8)),
        TargetModel::File { readable, .. } => match reply {
            ReplyModel::Byte(b) if readable => (s, Some(b)),
            _ => (s.settle(TargetModel::Closed, false), Some(0u8)),
        },
        TargetModel::Directory { text, pos } => if 0 <= pos < text.len() {
            (SdModel { target: TargetModel::Directory { text, pos: pos + 1 }, ..s }, Some(text[pos]))
        } else {
            match reply {
                ReplyModel::Entry(name) => if is_pseudo_entry(name) {
                    (s, None)
                } else {
                    (
                        SdModel {
                            target: TargetModel::Directory { text: entry_line(name), pos: 1 },
                            ..s
                        },
                        Some(entry_line(name)[0]),
                    )
                },
                _ => (s.settle(TargetModel::Closed, false), Some(0u8)),
            }
        },
    }
}

/// The state and the value after a read from `port`, the host having
/// answered `reply`.
pub open spec fn read_step(s: SdModel, port: u8, reply: ReplyModel) -> (SdModel, Option<u8>) {
    match register_at(port) {
        Some(SdRegister::Status) => (s, Some(s.status_byte())),
        Some(SdRegister::Data) => data_read_step(s, reply),
        Some(SdRegister::BlockCommand) => (s, Some(s.block_status)),
        _ => (s, Some(OPEN_BUS)),
    }
}

/// The block that a transfer hands to guest memory: the bytes read, cut to
/// one block and filled up with zeros.
pub open spec fn padded_block(data: Seq<u8>) -> Seq<u8> {
    Seq::new(
        BLOCK_SIZE as nat,
        |i: int|
            if i < data.len() {
                data[i]
            } else {
                0u8
            },
    )
}

/// The state after a block read, the host having answered `reply`.
pub open spec fn block_read_step(s: SdModel, reply: ReplyModel) -> SdModel {
    SdModel {
        block_status: if block_possible(s, 0) && reply is Block {
            BLOCK_OK
        } else {
            BLOCK_ERROR
        },
        ..s
    }
}

/// The state after a block write, the host having answered `reply`.
pub open spec fn block_write_step(s: SdModel, reply: ReplyModel) -> SdModel {
    SdModel {
        block_status: if block_possible(s, 1) && reply is Done {
            BLOCK_OK
        } else {
            BLOCK_ERROR
        },
        ..s
    }
}

} // verus!
