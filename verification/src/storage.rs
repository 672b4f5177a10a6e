//! A storage root as the card expects it to behave, and the card at work
//! on it.
//!
//! The card relies on its host for every file. `StorageModel` spells out the
//! host that it is designed for: named files of bytes, one handle with a
//! position, one enumeration. `guest_out` and `guest_in` join the card and
//! such a host into the machine that the guest sees, and the laws at the end
//! say what the guest can count on. They bind a host only as far as it
//! serves requests as `serve` does.

use vstd::prelude::*;
use crate::dma::{heap_after_block, window_bytes};
use crate::host::{ReplyModel, RequestModel};
use crate::model::{
    block_read_step, block_write_step, entry_line, is_pseudo_entry, padded_block, read_request,
    read_step, write_request, write_step, SdModel, TargetModel, BLOCK_OK,
};
use crate::ports::{
    BLOCK_SIZE, CMD_CLOSE, CMD_CREATE, CMD_OPEN_READ, CMD_SEEK_16, CMD_SEEK_BYTE,
    CMD_SEEK_START, SD_BLOCK_CMD, SD_CMD_PORT, SD_DATA_PORT,
};

verus! {

/// The host's handle on the open file.
pub struct HandleModel {
    pub name: Seq<u8>,
    pub pos: int,
    pub writable: bool,
}

/// The storage root and the host's session on it.
pub struct StorageModel {
    /// The files under the root, by name.
    pub files: Map<Seq<u8>, Seq<u8>>,
    /// The open file, if any.
    pub handle: Option<HandleModel>,
    /// The entries still to come in the running enumeration, if any.
    pub entries: Option<Seq<Seq<u8>>>,
    /// The raw entries that an enumeration of the root yields, in the
    /// host's order.
    pub order: Seq<Seq<u8>>,
}

/// The guest's machine: the card, the storage root and guest memory.
pub struct SystemModel {
    pub card: SdModel,
    pub storage: StorageModel,
    pub heap: Seq<u8>,
    pub pages: Map<int, (int, bool)>,
}

/// `content` with `bytes` written at offset `pos`: the file grows as far as
/// the write reaches, and a gap before it reads as zeros.
pub open spec fn written_at(content: Seq<u8>, pos: int, bytes: Seq<u8>) -> Seq<u8> {
    Seq::new(
        if content.len() >= pos + bytes.len() {
            content.len()
        } else {
            (pos + bytes.len()) as nat
        },
        |i: int|
            if pos <= i < pos + bytes.len() {
                bytes[i - pos]
            } else if i < content.len() {
                content[i]
            } else {
                0u8
            },
    )
}

/// The bytes that a read of up to `n` bytes at offset `pos` yields.
pub open spec fn read_at(content: Seq<u8>, pos: int, n: int) -> Seq<u8> {
    if 0 <= pos < content.len() {
        if pos + n <= content.len() {
            content.subrange(pos, pos + n)
        } else {
            content.subrange(pos, content.len() as int)
        }
    } else {
        Seq::empty()
    }
}

impl StorageModel {
    /// The handle points at a file that exists, at an offset that is not
    /// negative.
    pub open spec fn wf(self) -> bool {
        self.handle matches Some(h) ==> self.files.contains_key(h.name) && h.pos >= 0
    }

    /// The storage with the session released.
    pub open spec fn released(self) -> StorageModel {
        StorageModel { handle: None, entries: None, ..self }
    }

    /// Opens an existing file at `pos`.
    pub open spec fn open(self, name: Seq<u8>, pos: int, writable: bool) -> (
        StorageModel,
        ReplyModel,
    ) {
        if self.files.contains_key(name) {
            (
                StorageModel {
                    handle: Some(HandleModel { name, pos, writable }),
                    ..self.released()
                },
                ReplyModel::Done,
            )
        } else {
            (self.released(), ReplyModel::Failed)
        }
    }

    /// Writes `bytes` at the handle's position and moves on behind them.
    pub open spec fn write(self, bytes: Seq<u8>) -> (StorageModel, ReplyModel) {
        match self.handle {
            Some(h) if h.writable => (
                StorageModel {
                    files: self.files.insert(h.name, written_at(self.files[h.name], h.pos, bytes)),
                    handle: Some(HandleModel { pos: h.pos + bytes.len(), ..h }),
                    ..self
                },
                ReplyModel::Done,
            ),
            _ => (self, ReplyModel::Failed),
        }
    }
}

/// The host at work: the storage after request `req` and the answer to it.
/// `block` is the block that the card has gathered for a block write.
pub open spec fn serve(st: StorageModel, req: RequestModel, block: Seq<u8>) -> (
    StorageModel,
    ReplyModel,
) {
    match req {
        RequestModel::Nothing => (st, ReplyModel::Done),
        RequestModel::OpenRead(name) => st.open(name, 0, false),
        RequestModel::OpenReadWrite(name) => st.open(name, 0, true),
        RequestModel::OpenAppend(name) => st.open(
            name,
            if st.files.contains_key(name) {
                st.files[name].len() as int
            } else {
                0
            },
            true,
        ),
        RequestModel::Create(name) => (
            StorageModel {
                files: st.files.insert(name, Seq::empty()),
                handle: Some(HandleModel { name, pos: 0, writable: true }),
                ..st.released()
            },
            ReplyModel::Done,
        ),
        RequestModel::SeekTo(offset) => match st.handle {
            Some(h) => (
                StorageModel { handle: Some(HandleModel { pos: offset, ..h }), ..st },
                ReplyModel::Done,
            ),
            None => (st, ReplyModel::Failed),
        },
        RequestModel::Close => (st.released(), ReplyModel::Done),
        RequestModel::ListDirectory => (
            StorageModel { entries: Some(st.order), ..st.released() },
            ReplyModel::Done,
        ),
        RequestModel::ReadByte => match st.handle {
            Some(h) if 0 <= h.pos < st.files[h.name].len() => (
                StorageModel { handle: Some(HandleModel { pos: h.pos + 1, ..h }), ..st },
                ReplyModel::Byte(st.files[h.name][h.pos]),
            ),
            _ => (st.released(), ReplyModel::Failed),
        },
        RequestModel::WriteByte(b) => st.write(seq![b]),
        RequestModel::NextEntry => match st.entries {
            Some(rest) if rest.len() > 0 => (
                StorageModel { entries: Some(rest.drop_first()), ..st },
                ReplyModel::Entry(rest.first()),
            ),
            _ => (st.released(), ReplyModel::Failed),
        },
        RequestModel::ReadBlock => match st.handle {
            Some(h) => (
                StorageModel {
                    handle: Some(
                        HandleModel {
                            pos: h.pos + read_at(st.files[h.name], h.pos, BLOCK_SIZE as int).len(),
                            ..h
                        },
                    ),
                    ..st
                },
                ReplyModel::Block(read_at(st.files[h.name], h.pos, BLOCK_SIZE as int)),
            ),
            None => (st, ReplyModel::Failed),
        },
        RequestModel::WriteBlock => st.write(block),
    }
}

/// The machine after the guest wrote `val` to `port`.
pub open spec fn guest_out(sys: SystemModel, port: u8, val: u8) -> SystemModel {
    let req = write_request(sys.card, port, val);
    match req {
        RequestModel::ReadBlock => {
            let (storage, reply) = serve(sys.storage, req, Seq::empty());
            let card = block_read_step(sys.card, reply);
            SystemModel {
                card,
                storage,
                heap: match reply {
                    ReplyModel::Block(data) => heap_after_block(
                        sys.heap,
                        sys.pages,
                        sys.card.window(),
                        padded_block(data),
                        BLOCK_SIZE as nat,
                    ),
                    _ => sys.heap,
                },
                ..sys
            }
        },
        RequestModel::WriteBlock => {
            let block = window_bytes(sys.heap, sys.pages, sys.card.window());
            let (storage, reply) = serve(sys.storage, req, block);
            SystemModel { card: block_write_step(sys.card, reply), storage, ..sys }
        },
        _ => {
            let (storage, reply) = serve(sys.storage, req, Seq::empty());
            SystemModel { card: write_step(sys.card, port, val, reply), storage, ..sys }
        },
    }
}

/// The machine after the guest read from `port`, and the value read; `None`
/// where the host handed over an entry that is not listed.
pub open spec fn guest_in(sys: SystemModel, port: u8) -> (SystemModel, Option<u8>) {
    let (storage, reply) = serve(sys.storage, read_request(sys.card, port), Seq::empty());
    let (card, value) = read_step(sys.card, port, reply);
    (SystemModel { card, storage, ..sys }, value)
}

/// The machine after the guest wrote the bytes of `data` to the data port.
pub open spec fn after_data_out(sys: SystemModel, data: Seq<u8>) -> SystemModel
    decreases data.len(),
{
    if data.len() == 0 {
        sys
    } else {
        guest_out(after_data_out(sys, data.drop_last()), SD_DATA_PORT, data.last())
    }
}

/// The machine after the guest read `n` times from the data port.
pub open spec fn after_data_in(sys: SystemModel, n: nat) -> SystemModel
    decreases n,
{
    if n == 0 {
        sys
    } else {
        guest_in(after_data_in(sys, (n - 1) as nat), SD_DATA_PORT).0
    }
}

/// The card and the host agree on the session: both hold the same file open
/// in the same mode, or both are at work on a listing, or neither holds
/// anything.
pub open spec fn in_step(sys: SystemModel) -> bool {
    &&& sys.storage.wf()
    &&& match sys.card.target {
        TargetModel::File { readable, writable } => readable && sys.storage.handle.is_some()
            && sys.storage.handle.unwrap().writable == writable && sys.storage.entries.is_none(),
        TargetModel::Directory { .. } => sys.storage.handle.is_none()
            && sys.storage.entries.is_some(),
        TargetModel::Closed => sys.storage.handle.is_none() && sys.storage.entries.is_none(),
    }
}

/// The machine with a file open: `name` holds `content`, the position is
/// `pos`.
pub open spec fn file_at(sys: SystemModel, name: Seq<u8>, content: Seq<u8>, pos: int) -> bool {
    &&& in_step(sys)
    &&& sys.card.file_open()
    &&& sys.storage.handle.unwrap().name == name
    &&& sys.storage.handle.unwrap().pos == pos
    &&& sys.storage.files[name] == content
}

/// The card has exactly one session at any time, and the host follows it:
/// whatever the guest writes or reads, at whatever port, the two stay in
/// step. A session that ends, by a command or by running out of data, is
/// released on both sides at once.
pub proof fn law_in_step(sys: SystemModel, port: u8, val: u8)
    requires
        in_step(sys),
    ensures
        in_step(guest_out(sys, port, val)),
        in_step(guest_in(sys, port).0),
{
}

/// A card at power-on and a host with no session are in step.
pub proof fn law_in_step_at_power_on(sys: SystemModel)
    requires
        sys.card == crate::model::initial_model(),
        sys.storage.handle.is_none(),
        sys.storage.entries.is_none(),
    ensures
        in_step(sys),
{
}

/// Bytes written to the data port of a writable file at its end are
/// appended to it, in order; the card does not change.
pub proof fn lemma_data_out_appends(
    sys: SystemModel,
    name: Seq<u8>,
    content: Seq<u8>,
    data: Seq<u8>,
)
    requires
        file_at(sys, name, content, content.len() as int),
        sys.card.writable(),
    ensures
        file_at(after_data_out(sys, data), name, content + data, (content + data).len() as int),
        after_data_out(sys, data).card == sys.card,
        after_data_out(sys, data).heap == sys.heap,
        after_data_out(sys, data).pages == sys.pages,
    decreases data.len(),
{
    if data.len() == 0 {
        assert(content + data =~= content);
    } else {
        let front = data.drop_last();
        lemma_data_out_appends(sys, name, content, front);
        let before = after_data_out(sys, front);
        let grown = written_at(content + front, (content + front).len() as int, seq![data.last()]);
        assert(grown =~= content + data);
    }
}

/// Reading from the data port of a file walks through it byte by byte.
pub proof fn lemma_data_in_walks(
    sys: SystemModel,
    name: Seq<u8>,
    content: Seq<u8>,
    pos: int,
    n: nat,
)
    requires
        file_at(sys, name, content, pos),
        0 <= pos,
        pos + n <= content.len(),
    ensures
        file_at(after_data_in(sys, n), name, content, pos + n),
        after_data_in(sys, n).card == sys.card,
        pos + n < content.len() ==> guest_in(after_data_in(sys, n), SD_DATA_PORT).1 == Some(
            content[pos + n],
        ),
        pos + n == content.len() ==> guest_in(after_data_in(sys, n), SD_DATA_PORT).1 == Some(0u8)
            && guest_in(after_data_in(sys, n), SD_DATA_PORT).0.card.target is Closed
            && !guest_in(after_data_in(sys, n), SD_DATA_PORT).0.card.error
            && guest_in(after_data_in(sys, n), SD_DATA_PORT).0.storage.handle.is_none(),
    decreases n,
{
    if n > 0 {
        lemma_data_in_walks(sys, name, content, pos, (n - 1) as nat);
    }
}

/// The machine in the middle of a listing: `text` is the line in progress,
/// `pos` bytes of it are out, and the host has `rest` still to come.
pub open spec fn listing_at(sys: SystemModel, text: Seq<u8>, pos: int, rest: Seq<Seq<u8>>) -> bool {
    &&& in_step(sys)
    &&& sys.card.target == (TargetModel::Directory { text, pos })
    &&& sys.storage.entries == Some(rest)
}

/// Within a line, each read hands out the next byte and leaves the host
/// alone.
pub proof fn lemma_line_walks(
    sys: SystemModel,
    text: Seq<u8>,
    pos: int,
    rest: Seq<Seq<u8>>,
    n: nat,
)
    requires
        listing_at(sys, text, pos, rest),
        0 <= pos,
        pos + n <= text.len(),
    ensures
        listing_at(after_data_in(sys, n), text, pos + n, rest),
        pos + n < text.len() ==> guest_in(after_data_in(sys, n), SD_DATA_PORT).1 == Some(
            text[pos + n],
        ),
    decreases n,
{
    if n > 0 {
        lemma_line_walks(sys, text, pos, rest, (n - 1) as nat);
    }
}

/// A listing takes the host's entries one by one, in the host's order. An
/// entry named `.` or `..` is passed over: nothing is read, and the card
/// goes on to the next entry. Any other entry comes out as its name, CR and
/// LF, byte by byte, after which the card stands before the next entry.
/// When none is left, the read gives zero and the session is over: DATA
/// is clear, and every further read gives zero.
pub proof fn law_listing_step(sys: SystemModel, text: Seq<u8>, rest: Seq<Seq<u8>>, k: nat)
    requires
        listing_at(sys, text, text.len() as int, rest),
    ensures
        ({
            let (next, value) = guest_in(sys, SD_DATA_PORT);
            &&& rest.len() == 0 ==> value == Some(0u8) && next.card.status_byte() == 0x01
                && in_step(next) && guest_in(next, SD_DATA_PORT) == (next, Some(0u8))
            &&& rest.len() > 0 && is_pseudo_entry(rest.first()) ==> value is None && listing_at(
                next,
                text,
                text.len() as int,
                rest.drop_first(),
            )
            &&& rest.len() > 0 && !is_pseudo_entry(rest.first()) ==> {
                let line = entry_line(rest.first());
                &&& line.len() == rest.first().len() + 2
                &&& value == Some(line[0])
                &&& listing_at(next, line, 1, rest.drop_first())
                &&& 1 <= k < line.len() ==> guest_in(
                    after_data_in(next, (k - 1) as nat),
                    SD_DATA_PORT,
                ).1 == Some(line[k as int])
                &&& listing_at(
                    after_data_in(next, (line.len() - 1) as nat),
                    line,
                    line.len() as int,
                    rest.drop_first(),
                )
            }
        }),
{
    let (next, value) = guest_in(sys, SD_DATA_PORT);
    if rest.len() > 0 && !is_pseudo_entry(rest.first()) {
        let line = entry_line(rest.first());
        if 1 <= k < line.len() {
            lemma_line_walks(next, line, 1, rest.drop_first(), (k - 1) as nat);
        }
        lemma_line_walks(next, line, 1, rest.drop_first(), (line.len() - 1) as nat);
    }
}

/// List-directory starts a listing of everything that the host enumerates.
pub proof fn law_listing_starts(sys: SystemModel)
    requires
        in_step(sys),
    ensures
        listing_at(
            guest_out(sys, SD_CMD_PORT, crate::ports::CMD_DIR),
            Seq::empty(),
            0,
            sys.storage.order,
        ),
        guest_out(sys, SD_CMD_PORT, crate::ports::CMD_DIR).card.status_byte() == 0x81,
{
}

/// The text of a listing of `entries`: a line for each entry but `.` and
/// `..`, in order.
pub open spec fn listing_text(entries: Seq<Seq<u8>>) -> Seq<u8>
    decreases entries.len(),
{
    if entries.len() == 0 {
        Seq::empty()
    } else if is_pseudo_entry(entries.first()) {
        listing_text(entries.drop_first())
    } else {
        entry_line(entries.first()) + listing_text(entries.drop_first())
    }
}

/// Number of entries that the host has still to hand over.
pub open spec fn entries_left(sys: SystemModel) -> nat {
    match sys.storage.entries {
        Some(rest) => rest.len(),
        None => 0,
    }
}

/// One read from the data port as the guest sees it: the host fetches
/// entries until the card has a byte to give.
pub open spec fn guest_read(sys: SystemModel) -> (SystemModel, u8)
    decreases entries_left(sys),
{
    let (next, value) = guest_in(sys, SD_DATA_PORT);
    match value {
        Some(b) => (next, b),
        None => if entries_left(next) < entries_left(sys) {
            guest_read(next)
        } else {
            (next, 0u8)
        },
    }
}

/// The machine after the guest read `n` bytes from the data port.
pub open spec fn after_guest_reads(sys: SystemModel, n: nat) -> SystemModel
    decreases n,
{
    if n == 0 {
        sys
    } else {
        after_guest_reads(guest_read(sys).0, (n - 1) as nat)
    }
}

/// A listing is under way.
pub open spec fn listing(sys: SystemModel) -> bool {
    &&& in_step(sys)
    &&& sys.card.target matches TargetModel::Directory { text, pos } && 0 <= pos <= text.len()
}

/// What a listing under way has still to give: the rest of the line in
/// progress, then the lines of the entries to come.
pub open spec fn listing_left(sys: SystemModel) -> Seq<u8> {
    match sys.card.target {
        TargetModel::Directory { text, pos } => text.subrange(pos, text.len() as int)
            + listing_text(sys.storage.entries.unwrap()),
        _ => Seq::empty(),
    }
}

/// One read takes the first byte off what the listing has still to give;
/// when nothing is left, it ends the session with a zero.
pub proof fn lemma_listing_read(sys: SystemModel)
    requires
        listing(sys),
    ensures
        listing_left(sys).len() > 0 ==> {
            &&& guest_read(sys).1 == listing_left(sys)[0]
            &&& listing(guest_read(sys).0)
            &&& listing_left(guest_read(sys).0) == listing_left(sys).drop_first()
        },
        listing_left(sys).len() == 0 ==> {
            &&& guest_read(sys).1 == 0
            &&& guest_read(sys).0.card.target is Closed
            &&& guest_read(sys).0.card.status_byte() == 0x01
            &&& in_step(guest_read(sys).0)
        },
    decreases entries_left(sys),
{
    let text = sys.card.target->Directory_text;
    let pos = sys.card.target->Directory_pos;
    let rest = sys.storage.entries.unwrap();
    let (next, value) = guest_in(sys, SD_DATA_PORT);
    if pos < text.len() {
        assert(listing_left(next) =~= listing_left(sys).drop_first());
    } else {
        assert(text.subrange(pos, text.len() as int) =~= Seq::<u8>::empty());
        assert(listing_left(sys) =~= listing_text(rest));
        if rest.len() > 0 {
            if is_pseudo_entry(rest.first()) {
                lemma_listing_read(next);
                assert(listing_left(next) =~= listing_text(rest.drop_first()));
            } else {
                let line = entry_line(rest.first());
                assert(line.subrange(1, line.len() as int) + listing_text(rest.drop_first())
                    =~= (line + listing_text(rest.drop_first())).drop_first());
            }
        }
    }
}

/// After list-directory the data port gives the text of the listing, byte
/// by byte: one line of name, CR and LF for each entry that the host
/// enumerates, in the host's order, none for `.` and `..`. The read after
/// the last byte gives zero and ends the session: DATA is clear.
pub proof fn law_listing_reads(sys: SystemModel, k: nat)
    requires
        in_step(sys),
        k <= listing_text(sys.storage.order).len(),
    ensures
        ({
            let started = guest_out(sys, SD_CMD_PORT, crate::ports::CMD_DIR);
            let text = listing_text(sys.storage.order);
            let (next, value) = guest_read(after_guest_reads(started, k));
            &&& k < text.len() ==> value == text[k as int]
            &&& k == text.len() ==> value == 0 && next.card.status_byte() == 0x01
        }),
{
    let started = guest_out(sys, SD_CMD_PORT, crate::ports::CMD_DIR);
    assert(listing_left(started) =~= listing_text(sys.storage.order));
    lemma_listing_reads_on(started, k);
}

/// Read number `k` of a listing under way gives byte `k` of what it has
/// still to give.
pub proof fn lemma_listing_reads_on(sys: SystemModel, k: nat)
    requires
        listing(sys),
        k <= listing_left(sys).len(),
    ensures
        k < listing_left(sys).len() ==> guest_read(after_guest_reads(sys, k)).1 == listing_left(
            sys,
        )[k as int],
        k == listing_left(sys).len() ==> guest_read(after_guest_reads(sys, k)).1 == 0
            && guest_read(after_guest_reads(sys, k)).0.card.status_byte() == 0x01,
    decreases k,
{
    lemma_listing_read(sys);
    if k > 0 {
        lemma_listing_reads_on(guest_read(sys).0, (k - 1) as nat);
    }
}

/// The machine with `name` as the pending file name, ended by its
/// terminator.
pub open spec fn named(sys: SystemModel, name: Seq<u8>) -> SystemModel {
    SystemModel { card: SdModel { filename: name, name_done: true, ..sys.card }, ..sys }
}

/// The machine after the guest wrote the bytes of `bytes` to the file name
/// port.
pub open spec fn after_name_out(sys: SystemModel, bytes: Seq<u8>) -> SystemModel
    decreases bytes.len(),
{
    if bytes.len() == 0 {
        sys
    } else {
        guest_out(after_name_out(sys, bytes.drop_last()), crate::ports::SD_FNAME_PORT, bytes.last())
    }
}

/// Writes to the file name port are the card's own business: the host is
/// not asked, and nothing but the card changes.
pub proof fn lemma_name_out(sys: SystemModel, bytes: Seq<u8>)
    ensures
        after_name_out(sys, bytes) == (SystemModel {
            card: crate::laws::after_name_bytes(sys.card, bytes),
            ..sys
        }),
    decreases bytes.len(),
{
    if bytes.len() > 0 {
        lemma_name_out(sys, bytes.drop_last());
    }
}

/// The guest names a file by writing the bytes of the name and then the
/// terminator. Where the name pending before was ended, or none was
/// pending, the new name stands alone.
pub proof fn law_named(sys: SystemModel, name: Seq<u8>)
    requires
        name.len() > 0,
        forall|i: int| 0 <= i < name.len() ==> name[i] != 0,
        sys.card.name_done || sys.card.filename.len() == 0,
    ensures
        guest_out(after_name_out(sys, name), crate::ports::SD_FNAME_PORT, 0) == named(sys, name),
{
    lemma_name_out(sys, name);
    crate::laws::lemma_name_grows(sys.card, name);
    assert(crate::laws::name_begun(sys.card) + name =~= name);
}

/// Create, write, close, open for reading, read: the bytes come back, all of
/// them and in order, and the read after the last one ends the session with
/// a zero and no error.
pub proof fn law_write_then_read_back(sys: SystemModel, name: Seq<u8>, data: Seq<u8>, k: nat)
    requires
        sys.storage.wf(),
        k <= data.len(),
    ensures
        ({
            let created = guest_out(named(sys, name), SD_CMD_PORT, CMD_CREATE);
            let written = after_data_out(created, data);
            let closed = guest_out(written, SD_CMD_PORT, CMD_CLOSE);
            let opened = guest_out(named(closed, name), SD_CMD_PORT, CMD_OPEN_READ);
            let (next, value) = guest_in(after_data_in(opened, k), SD_DATA_PORT);
            &&& created.card.status_byte() == 0x81
            &&& closed.storage.files[name] == data
            &&& closed.card.status_byte() == 0x01
            &&& opened.card.status_byte() == 0x81
            &&& k < data.len() ==> value == Some(data[k as int])
            &&& k == data.len() ==> value == Some(0u8) && next.card.status_byte() == 0x01
        }),
{
    let created = guest_out(named(sys, name), SD_CMD_PORT, CMD_CREATE);
    assert(created.storage.files[name] == Seq::<u8>::empty());
    lemma_data_out_appends(created, name, Seq::empty(), data);
    assert(Seq::<u8>::empty() + data =~= data);
    let written = after_data_out(created, data);
    let closed = guest_out(written, SD_CMD_PORT, CMD_CLOSE);
    let opened = guest_out(named(closed, name), SD_CMD_PORT, CMD_OPEN_READ);
    assert(file_at(opened, name, data, 0));
    lemma_data_in_walks(opened, name, data, 0, k);
}

/// Create, write, seek to start, read: the bytes come back from the
/// beginning.
pub proof fn law_rewind_reads_again(sys: SystemModel, name: Seq<u8>, data: Seq<u8>, k: nat)
    requires
        sys.storage.wf(),
        k < data.len(),
    ensures
        ({
            let created = guest_out(named(sys, name), SD_CMD_PORT, CMD_CREATE);
            let written = after_data_out(created, data);
            let rewound = guest_out(written, SD_CMD_PORT, CMD_SEEK_START);
            &&& rewound.card.status_byte() == 0x81
            &&& guest_in(after_data_in(rewound, k), SD_DATA_PORT).1 == Some(data[k as int])
        }),
{
    let created = guest_out(named(sys, name), SD_CMD_PORT, CMD_CREATE);
    assert(created.storage.files[name] == Seq::<u8>::empty());
    lemma_data_out_appends(created, name, Seq::empty(), data);
    assert(Seq::<u8>::empty() + data =~= data);
    let written = after_data_out(created, data);
    let rewound = guest_out(written, SD_CMD_PORT, CMD_SEEK_START);
    assert(file_at(rewound, name, data, 0));
    lemma_data_in_walks(rewound, name, data, 0, k);
}

/// Seek to the cursor puts the next read and the next write at the offset
/// that the cursor holds. Inside the file the read gives the byte there;
/// at or past its end the read ends the session with a zero and no error.
/// The write stores its byte at that offset.
pub proof fn law_seek_positions(
    sys: SystemModel,
    name: Seq<u8>,
    content: Seq<u8>,
    pos: int,
    cmd: u8,
    b: u8,
)
    requires
        file_at(sys, name, content, pos),
        cmd == CMD_SEEK_BYTE || cmd == CMD_SEEK_16,
    ensures
        ({
            let k = sys.card.cursor();
            let sought = guest_out(sys, SD_CMD_PORT, cmd);
            let (after, value) = guest_in(sought, SD_DATA_PORT);
            let stored = guest_out(sought, SD_DATA_PORT, b);
            &&& 0 <= k < 0x1000000
            &&& file_at(sought, name, content, k)
            &&& !sought.card.error
            &&& k < content.len() ==> value == Some(content[k]) && file_at(
                after,
                name,
                content,
                k + 1,
            )
            &&& k >= content.len() ==> value == Some(0u8) && after.card.target is Closed
                && !after.card.error
            &&& sys.card.writable() ==> file_at(
                stored,
                name,
                written_at(content, k, seq![b]),
                k + 1,
            )
            &&& sys.card.writable() ==> written_at(content, k, seq![b])[k] == b
        }),
{
}

/// A block write puts exactly one block of 128 bytes into the file, at the
/// position it had, whatever the guest has or has not stored in the
/// window: the window as guest memory shows it.
pub proof fn law_block_write_is_whole(
    sys: SystemModel,
    name: Seq<u8>,
    content: Seq<u8>,
    pos: int,
    val: u8,
)
    requires
        file_at(sys, name, content, pos),
        sys.card.writable(),
        sys.card.memory_bound,
        val != 0,
    ensures
        ({
            let block = window_bytes(sys.heap, sys.pages, sys.card.window());
            let after = guest_out(sys, SD_BLOCK_CMD, val);
            &&& block.len() == BLOCK_SIZE
            &&& file_at(after, name, written_at(content, pos, block), pos + BLOCK_SIZE)
            &&& written_at(content, pos, block).subrange(pos, pos + BLOCK_SIZE) == block
            &&& after.card.block_status == BLOCK_OK
            &&& after.heap == sys.heap
        }),
{
    let block = window_bytes(sys.heap, sys.pages, sys.card.window());
    assert(written_at(content, pos, block).subrange(pos, pos + BLOCK_SIZE) =~= block);
}

/// A block read hands the guest one whole block: the bytes that the file
/// holds from its position on, up to 128 of them, then zeros. It succeeds
/// even at the end of the file, where the block is all zeros.
pub proof fn law_block_read_is_whole(sys: SystemModel, name: Seq<u8>, content: Seq<u8>, pos: int)
    requires
        file_at(sys, name, content, pos),
        sys.card.memory_bound,
    ensures
        ({
            let data = read_at(content, pos, BLOCK_SIZE as int);
            let after = guest_out(sys, SD_BLOCK_CMD, 0);
            &&& data.len() <= BLOCK_SIZE
            &&& file_at(after, name, content, pos + data.len())
            &&& after.card.block_status == BLOCK_OK
            &&& after.heap == heap_after_block(
                sys.heap,
                sys.pages,
                sys.card.window(),
                padded_block(data),
                BLOCK_SIZE as nat,
            )
            &&& forall|i: int|
                0 <= i < BLOCK_SIZE ==> #[trigger] padded_block(data)[i] == if pos + i
                    < content.len() {
                    content[pos + i]
                } else {
                    0u8
                }
        }),
{
}

} // verus!
