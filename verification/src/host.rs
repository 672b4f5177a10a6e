//! What the card asks of the host, and what the host answers.
//!
//! The card holds no file and touches no disk. Before each port access the
//! embedding program asks which service the access needs, performs it against
//! the storage root, and hands the answer in together with the access.

use vstd::prelude::*;

verus! {

/// A service the host performs for one port access.
#[derive(Debug, PartialEq, Eq)]
pub enum HostRequest {
    /// The access needs nothing from the host.
    Nothing,
    /// Release the current session, then open the named file for reading.
    OpenRead(Vec<u8>),
    /// Release the current session, make sure the storage root exists, then
    /// create or truncate the named file for reading and writing.
    Create(Vec<u8>),
    /// Release the current session, then open the named file for reading and
    /// writing, positioned at its end.
    OpenAppend(Vec<u8>),
    /// Release the current session, then open the named file for reading and
    /// writing, positioned at its start.
    OpenReadWrite(Vec<u8>),
    /// Move the open file's position to this byte offset.
    SeekTo(u32),
    /// Release the current session.
    Close,
    /// Release the current session, make sure the storage root exists, then
    /// start enumerating it.
    ListDirectory,
    /// Read the next byte of the open file. Where there is none, release
    /// the session.
    ReadByte,
    /// Write this byte to the open file at its position.
    WriteByte(u8),
    /// Fetch the next raw entry of the enumeration. Where there is none,
    /// release the session.
    NextEntry,
    /// Read up to one block from the open file at its position.
    ReadBlock,
    /// Write one block, gathered from guest memory, to the open file.
    WriteBlock,
}

/// `HostRequest` with its file name as a sequence.
pub enum RequestModel {
    Nothing,
    OpenRead(Seq<u8>),
    Create(Seq<u8>),
    OpenAppend(Seq<u8>),
    OpenReadWrite(Seq<u8>),
    SeekTo(int),
    Close,
    ListDirectory,
    ReadByte,
    WriteByte(u8),
    NextEntry,
    ReadBlock,
    WriteBlock,
}

impl View for HostRequest {
    type V = RequestModel;

    open spec fn view(&self) -> RequestModel {
        match *self {
            HostRequest::Nothing => RequestModel::Nothing,
            HostRequest::OpenRead(name) => RequestModel::OpenRead(name@),
            HostRequest::Create(name) => RequestModel::Create(name@),
            HostRequest::OpenAppend(name) => RequestModel::OpenAppend(name@),
            HostRequest::OpenReadWrite(name) => RequestModel::OpenReadWrite(name@),
            HostRequest::SeekTo(offset) => RequestModel::SeekTo(offset as int),
            HostRequest::Close => RequestModel::Close,
            HostRequest::ListDirectory => RequestModel::ListDirectory,
            HostRequest::ReadByte => RequestModel::ReadByte,
            HostRequest::WriteByte(b) => RequestModel::WriteByte(b),
            HostRequest::NextEntry => RequestModel::NextEntry,
            HostRequest::ReadBlock => RequestModel::ReadBlock,
            HostRequest::WriteBlock => RequestModel::WriteBlock,
        }
    }
}

/// The host's answer to a request.
#[derive(Debug, PartialEq, Eq)]
pub enum HostReply {
    /// The service was performed; it yields no data.
    Done,
    /// The service failed, or its source is exhausted.
    Failed,
    /// The byte read.
    Byte(u8),
    /// The name of the entry fetched.
    Entry(Vec<u8>),
    /// The bytes read, at most one block of them.
    Block(Vec<u8>),
}

/// `HostReply` with its payload as a sequence.
pub enum ReplyModel {
    Done,
    Failed,
    Byte(u8),
    Entry(Seq<u8>),
    Block(Seq<u8>),
}

impl View for HostReply {
    type V = ReplyModel;

    open spec fn view(&self) -> ReplyModel {
        match *self {
            HostReply::Done => ReplyModel::Done,
            HostReply::Failed => ReplyModel::Failed,
            HostReply::Byte(b) => ReplyModel::Byte(b),
            HostReply::Entry(name) => ReplyModel::Entry(name@),
            HostReply::Block(data) => ReplyModel::Block(data@),
        }
    }
}

} // verus!
