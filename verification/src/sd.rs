//! The storage card: file access for the guest through a handful of ports.
//!
//! A port access runs in two halves. `read_request` or `write_request` says
//! which host service the access needs; `read_port` or `write_port` then takes
//! the host's answer and completes the access. The card never fails: whatever
//! goes wrong is shown to the guest in the status byte.

use vstd::prelude::*;
use crate::host::{HostReply, HostRequest};
use crate::model::{
    block_possible, command_request, command_step, data_read_step, initial_model,
    is_pseudo_entry, read_request, read_step, write_request, write_step, SdModel, TargetModel,
    BLOCK_ERROR, BLOCK_OK, CR, DOT, LF, OPEN_BUS,
};
use crate::ports::{
    decode_port, register_at, SdRegister, CMD_CLOSE, CMD_CREATE, CMD_DIR, CMD_OPEN_APPEND,
    CMD_OPEN_READ, CMD_OPEN_RW, CMD_SEEK_16, CMD_SEEK_BYTE, CMD_SEEK_START,
};

verus! {

/// The card's one session: nothing, a file, or a directory listing.
#[derive(Debug)]
pub enum OpenTarget {
    Closed,
    File { readable: bool, writable: bool },
    Directory { text: Vec<u8>, pos: usize },
}

impl View for OpenTarget {
    type V = TargetModel;

    open spec fn view(&self) -> TargetModel {
        match *self {
            OpenTarget::Closed => TargetModel::Closed,
            OpenTarget::File { readable, writable } => TargetModel::File { readable, writable },
            OpenTarget::Directory { text, pos } => TargetModel::Directory {
                text: text@,
                pos: pos as int,
            },
        }
    }
}

/// The storage card.
#[derive(Debug)]
pub struct SdCard {
    filename: Vec<u8>,
    name_done: bool,
    seek_low: u8,
    seek_high: u8,
    seek_ext: u8,
    dma_low: u8,
    dma_high: u8,
    error: bool,
    target: OpenTarget,
    block_status: u8,
    memory_bound: bool,
    debug: bool,
}

impl View for SdCard {
    type V = SdModel;

    closed spec fn view(&self) -> SdModel {
        SdModel {
            filename: self.filename@,
            name_done: self.name_done,
            seek_low: self.seek_low,
            seek_high: self.seek_high,
            seek_ext: self.seek_ext,
            dma_low: self.dma_low,
            dma_high: self.dma_high,
            error: self.error,
            target: self.target@,
            block_status: self.block_status,
            memory_bound: self.memory_bound,
            debug: self.debug,
        }
    }
}

/// A copy of `bytes`.
pub fn copy_bytes(bytes: &Vec<u8>) -> (out: Vec<u8>)
    ensures
        out@ == bytes@,
{
    let mut out: Vec<u8> = Vec::new();
    let mut i: usize = 0;
    while i < bytes.len()
        invariant
            i <= bytes.len(),
            out@ == bytes@.subrange(0, i as int),
        decreases bytes.len() - i,
    {
        out.push(bytes[i]);
        i += 1;
        assert(out@ =~= bytes@.subrange(0, i as int));
    }
    assert(bytes@.subrange(0, bytes@.len() as int) =~= bytes@);
    out
}

/// Whether `name` is one of the two entries `.` and `..`.
pub fn pseudo_entry(name: &Vec<u8>) -> (r: bool)
    ensures
        r == is_pseudo_entry(name@),
{
    (name.len() == 1 && name[0] == DOT) || (name.len() == 2 && name[0] == DOT && name[1] == DOT)
}

impl SdCard {
    /// The pending file name.
    pub fn filename(&self) -> (name: Vec<u8>)
        ensures
            name@ == self@.filename,
    {
        copy_bytes(&self.filename)
    }

    /// A card at power-on: idle, nothing open, no file name, the seek cursor
    /// at 0 and the DMA address at 0x0080.
    pub fn new() -> (card: SdCard)
        ensures
            card@ == initial_model(),
    {
        SdCard {
            filename: Vec::new(),
            name_done: false,
            seek_low: 0,
            seek_high: 0,
            seek_ext: 0,
            dma_low: 0x80,
            dma_high: 0,
            error: false,
            target: OpenTarget::Closed,
            block_status: BLOCK_OK,
            memory_bound: false,
            debug: false,
        }
    }

    /// Turns the host's tracing on or off. The card only keeps the flag.
    pub fn set_debug(&mut self, debug: bool)
        ensures
            final(self)@ == (SdModel { debug, ..old(self)@ }),
    {
        self.debug = debug;
    }

    /// Whether tracing is on.
    pub fn debug(&self) -> (r: bool)
        ensures
            r == self@.debug,
    {
        self.debug
    }

    /// Records that a guest memory is at hand for block transfers. The
    /// memory itself is passed to each transfer.
    pub fn set_cpu_mem(&mut self)
        ensures
            final(self)@ == (SdModel { memory_bound: true, ..old(self)@ }),
    {
        self.memory_bound = true;
    }

    /// Whether the card answers at `port`.
    pub fn handles_port(port: u8) -> (r: bool)
        ensures
            r == register_at(port).is_some(),
    {
        decode_port(port).is_some()
    }

    /// The seek cursor.
    pub fn seek_pos(&self) -> (pos: u32)
        ensures
            pos == self@.cursor(),
    {
        let low: u32 = self.seek_low as u32;
        let high: u32 = self.seek_high as u32;
        let ext: u32 = self.seek_ext as u32;
        low + 256 * high + 65536 * ext
    }

    /// The DMA address.
    pub fn dma_addr(&self) -> (addr: u16)
        ensures
            addr == self@.window(),
    {
        let low: u16 = self.dma_low as u16;
        let high: u16 = self.dma_high as u16;
        low + 256 * high
    }

    /// Whether a block transfer in the direction that `val` selects can
    /// start: a memory is bound and a file is open in the mode it needs.
    pub fn can_transfer(&self, val: u8) -> (r: bool)
        ensures
            r == block_possible(self@, val),
    {
        self.memory_bound && match self.target {
            OpenTarget::File { readable, writable } => if val == 0 {
                readable
            } else {
                writable
            },
            _ => false,
        }
    }

    /// Records the outcome of a block transfer.
    pub(crate) fn record_block(&mut self, status: u8)
        ensures
            final(self)@ == (SdModel { block_status: status, ..old(self)@ }),
    {
        self.block_status = status;
    }

    /// Whether a file is open.
    fn file_open(&self) -> (r: bool)
        ensures
            r == self@.file_open(),
    {
        match self.target {
            OpenTarget::File { .. } => true,
            _ => false,
        }
    }

    /// The host service that command `cmd` needs.
    pub fn command_request(&self, cmd: u8) -> (req: HostRequest)
        ensures
            req@ == command_request(self@, cmd),
    {
        match cmd {
            CMD_OPEN_READ => HostRequest::OpenRead(copy_bytes(&self.filename)),
            CMD_CREATE => HostRequest::Create(copy_bytes(&self.filename)),
            CMD_OPEN_APPEND => HostRequest::OpenAppend(copy_bytes(&self.filename)),
            CMD_OPEN_RW => HostRequest::OpenReadWrite(copy_bytes(&self.filename)),
            CMD_SEEK_START => if self.file_open() {
                HostRequest::SeekTo(0)
            } else {
                HostRequest::Nothing
            },
            CMD_SEEK_BYTE | CMD_SEEK_16 => if self.file_open() {
                HostRequest::SeekTo(self.seek_pos())
            } else {
                HostRequest::Nothing
            },
            CMD_CLOSE => match self.target {
                OpenTarget::Closed => HostRequest::Nothing,
                _ => HostRequest::Close,
            },
            CMD_DIR => HostRequest::ListDirectory,
            _ => HostRequest::Nothing,
        }
    }

    /// Completes command `cmd` with the host's answer: the session and the
    /// status change as the command and the answer say, and the file name is
    /// cleared if the command used it. An unknown command changes nothing.
    pub fn handle_command(&mut self, cmd: u8, reply: HostReply)
        ensures
            final(self)@ == command_step(old(self)@, cmd, reply@),
    {
        let done: bool = match reply {
            HostReply::Done => true,
            _ => false,
        };
        match cmd {
            CMD_OPEN_READ | CMD_CREATE | CMD_OPEN_APPEND | CMD_OPEN_RW => {
                self.filename = Vec::new();
                self.name_done = false;
                if done {
                    self.target = OpenTarget::File { readable: true, writable: cmd != CMD_OPEN_READ };
                    self.error = false;
                } else {
                    self.target = OpenTarget::Closed;
                    self.error = true;
                }
            },
            CMD_SEEK_START | CMD_SEEK_BYTE | CMD_SEEK_16 => {
                self.error = !(self.file_open() && done);
            },
            CMD_CLOSE => {
                self.target = OpenTarget::Closed;
                self.error = false;
            },
            CMD_DIR => {
                if done {
                    self.target = OpenTarget::Directory { text: Vec::new(), pos: 0 };
                    self.error = false;
                } else {
                    self.target = OpenTarget::Closed;
                    self.error = true;
                }
            },
            _ => {},
        }
    }

    /// The host service that a write of `val` to `port` needs.
    pub fn write_request(&self, port: u8, val: u8) -> (req: HostRequest)
        ensures
            req@ == write_request(self@, port, val),
    {
        match decode_port(port) {
            Some(SdRegister::Command) => self.command_request(val),
            Some(SdRegister::Data) => if self.takes_bytes() {
                HostRequest::WriteByte(val)
            } else {
                HostRequest::Nothing
            },
            Some(SdRegister::BlockCommand) => if !self.can_transfer(val) {
                HostRequest::Nothing
            } else if val == 0 {
                HostRequest::ReadBlock
            } else {
                HostRequest::WriteBlock
            },
            _ => HostRequest::Nothing,
        }
    }

    /// Whether a file is open that can be written.
    fn takes_bytes(&self) -> (r: bool)
        ensures
            r == self@.writable(),
    {
        match self.target {
            OpenTarget::File { writable, .. } => writable,
            _ => false,
        }
    }

    /// Completes a write of `val` to `port` with the host's answer. On the
    /// file name port a zero byte ends the pending name and any other byte
    /// joins it, beginning a new name where the last one was ended.
    pub fn write_port(&mut self, port: u8, val: u8, reply: HostReply)
        ensures
            final(self)@ == write_step(old(self)@, port, val, reply@),
    {
        match decode_port(port) {
            Some(SdRegister::Command) => {
                self.handle_command(val, reply);
            },
            Some(SdRegister::Filename) => {
                if val == 0 {
                    self.name_done = true;
                } else {
                    if self.name_done {
                        self.filename = Vec::new();
                        self.name_done = false;
                    }
                    self.filename.push(val);
                    assert(seq![val] =~= Seq::<u8>::empty().push(val));
                }
            },
            Some(SdRegister::SeekLow) => {
                self.seek_low = val;
            },
            Some(SdRegister::SeekHigh) => {
                self.seek_high = val;
            },
            Some(SdRegister::SeekExtended) => {
                self.seek_ext = val;
            },
            Some(SdRegister::DmaLow) => {
                self.dma_low = val;
            },
            Some(SdRegister::DmaHigh) => {
                self.dma_high = val;
            },
            Some(SdRegister::BlockCommand) => {
                if !self.can_transfer(val) {
                    self.block_status = BLOCK_ERROR;
                }
            },
            _ => {},
        }
    }

    /// The status byte as the guest reads it.
    pub fn status(&self) -> (b: u8)
        ensures
            b == self@.status_byte(),
    {
        let open: bool = match self.target {
            OpenTarget::Closed => false,
            _ => true,
        };
        if open {
            if self.error {
                0x83
            } else {
                0x81
            }
        } else {
            if self.error {
                0x03
            } else {
                0x01
            }
        }
    }

    /// The host service that a read from `port` needs.
    pub fn read_request(&self, port: u8) -> (req: HostRequest)
        ensures
            req@ == read_request(self@, port),
    {
        match decode_port(port) {
            Some(SdRegister::Data) => match &self.target {
                OpenTarget::Closed => HostRequest::Nothing,
                OpenTarget::File { readable, .. } => if *readable {
                    HostRequest::ReadByte
                } else {
                    HostRequest::Nothing
                },
                OpenTarget::Directory { text, pos } => if *pos < text.len() {
                    HostRequest::Nothing
                } else {
                    HostRequest::NextEntry
                },
            },
            _ => HostRequest::Nothing,
        }
    }

    /// Completes a read from the data port with the host's answer.
    fn read_data(&mut self, reply: HostReply) -> (out: Option<u8>)
        ensures
            (final(self)@, out) == data_read_step(old(self)@, reply@),
    {
        let mut have: Option<u8> = None;
        let mut is_file: bool = false;
        let mut can_read: bool = false;
        match &self.target {
            OpenTarget::Closed => {
                return Some(0);
            },
            OpenTarget::File { readable, .. } => {
                is_file = true;
                can_read = *readable;
            },
            OpenTarget::Directory { text, pos } => {
                if *pos < text.len() {
                    have = Some(text[*pos]);
                }
            },
        }
        if is_file {
            match reply {
                HostReply::Byte(b) => {
                    if can_read {
                        return Some(b);
                    }
                },
                _ => {},
            }
            self.target = OpenTarget::Closed;
            self.error = false;
            return Some(0);
        }
        match have {
            Some(b) => {
                self.advance_line();
                Some(b)
            },
            None => match reply {
                HostReply::Entry(name) => {
                    if pseudo_entry(&name) {
                        None
                    } else {
                        let mut text: Vec<u8> = name;
                        text.push(CR);
                        text.push(LF);
                        let first: u8 = text[0];
                        self.target = OpenTarget::Directory { text, pos: 1 };
                        Some(first)
                    }
                },
                _ => {
                    self.target = OpenTarget::Closed;
                    self.error = false;
                    Some(0)
                },
            },
        }
    }

    /// Moves on by one byte in the line in progress.
    fn advance_line(&mut self)
        requires
            old(self)@.target matches TargetModel::Directory { text, pos } && 0 <= pos < text.len(),
        ensures
            final(self)@ == (SdModel {
                target: TargetModel::Directory {
                    text: old(self)@.target->Directory_text,
                    pos: old(self)@.target->Directory_pos + 1,
                },
                ..old(self)@
            }),
    {
        match &mut self.target {
            OpenTarget::Directory { text, pos } => {
                if *pos < text.len() {
                    *pos = *pos + 1;
                }
            },
            _ => {},
        }
    }

    /// Completes a read from `port` with the host's answer and gives the
    /// value read. `None` means that the directory entry handed over is one
    /// that is never listed: nothing changed, and the host is to fetch the
    /// next entry and call again.
    pub fn read_port(&mut self, port: u8, reply: HostReply) -> (out: Option<u8>)
        ensures
            (final(self)@, out) == read_step(old(self)@, port, reply@),
    {
        match decode_port(port) {
            Some(SdRegister::Status) => Some(self.status()),
            Some(SdRegister::Data) => self.read_data(reply),
            Some(SdRegister::BlockCommand) => Some(self.block_status),
            _ => Some(OPEN_BUS),
        }
    }
}

} // verus!
