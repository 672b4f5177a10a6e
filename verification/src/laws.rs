//! What holds of the card as a whole, proved from the state machine.

use vstd::prelude::*;
use crate::dma::{flat, heap_after_block, window_bytes};
use crate::guest::{byte_seen, ADDRESS_SPACE};
use crate::host::{ReplyModel, RequestModel};
use crate::model::{
    block_read_step, block_write_step, command_request, command_step, data_read_step,
    entry_line, initial_model, is_pseudo_entry, padded_block, read_request, read_step,
    write_request, write_step, SdModel, TargetModel, BLOCK_ERROR, CR, DOT, LF,
};
use crate::ports::{
    BLOCK_SIZE, CMD_CLOSE, CMD_CREATE, CMD_DIR, CMD_OPEN_APPEND, CMD_OPEN_READ, CMD_OPEN_RW,
    CMD_SEEK_16, CMD_SEEK_BYTE, CMD_SEEK_START, SD_BLOCK_CMD, SD_CMD_PORT, SD_DATA_PORT,
    SD_FNAME_PORT, SD_SEEK_EX, SD_SEEK_HI, SD_SEEK_LO, SD_STATUS_PORT, STATUS_DATA,
    STATUS_ERROR, STATUS_READY,
};

verus! {

/// A command that takes the pending file name.
pub open spec fn uses_filename(cmd: u8) -> bool {
    cmd == CMD_OPEN_READ || cmd == CMD_CREATE || cmd == CMD_OPEN_APPEND || cmd == CMD_OPEN_RW
}

/// A command that starts a session.
pub open spec fn opens_session(cmd: u8) -> bool {
    uses_filename(cmd) || cmd == CMD_DIR
}

/// A command that the card knows.
pub open spec fn known_command(cmd: u8) -> bool {
    1 <= cmd <= 9
}

/// The three status bits are independent: READY is always set, ERROR tells
/// whether the last command failed, DATA tells whether a session is open.
pub proof fn law_status_bits(s: SdModel)
    ensures
        s.status_byte() & STATUS_READY == STATUS_READY,
        (s.status_byte() & STATUS_ERROR == STATUS_ERROR) == s.error,
        (s.status_byte() & STATUS_ERROR == 0) == !s.error,
        (s.status_byte() & STATUS_DATA == STATUS_DATA) == s.is_open(),
        (s.status_byte() & STATUS_DATA == 0) == !s.is_open(),
{
    assert(0x01u8 & 0x01u8 == 0x01u8 && 0x01u8 & 0x02u8 == 0 && 0x01u8 & 0x80u8 == 0)
        by (bit_vector);
    assert(0x03u8 & 0x01u8 == 0x01u8 && 0x03u8 & 0x02u8 == 0x02u8 && 0x03u8 & 0x80u8 == 0)
        by (bit_vector);
    assert(0x81u8 & 0x01u8 == 0x01u8 && 0x81u8 & 0x02u8 == 0 && 0x81u8 & 0x80u8 == 0x80u8)
        by (bit_vector);
    assert(0x83u8 & 0x01u8 == 0x01u8 && 0x83u8 & 0x02u8 == 0x02u8 && 0x83u8 & 0x80u8 == 0x80u8)
        by (bit_vector);
}

/// Every known command leaves the card idle, whatever the host answered;
/// a command that the card does not know changes nothing at all.
pub proof fn law_command_outcome(s: SdModel, cmd: u8, reply: ReplyModel)
    ensures
        !known_command(cmd) ==> command_step(s, cmd, reply) == s && command_request(s, cmd)
            is Nothing,
        opens_session(cmd) ==> (command_step(s, cmd, reply).is_open() <==> reply is Done),
        opens_session(cmd) ==> (command_step(s, cmd, reply).error <==> !(reply is Done)),
        command_step(s, cmd, reply).seek_low == s.seek_low,
        command_step(s, cmd, reply).seek_high == s.seek_high,
        command_step(s, cmd, reply).seek_ext == s.seek_ext,
        command_step(s, cmd, reply).dma_low == s.dma_low,
        command_step(s, cmd, reply).dma_high == s.dma_high,
        command_step(s, cmd, reply).block_status == s.block_status,
{
}

/// An open command that the host cannot serve, such as opening a file that
/// does not exist, sets ERROR and READY and leaves DATA clear; the data port
/// then reads zero, and asks nothing of the host.
pub proof fn law_failed_open(s: SdModel, cmd: u8, reply: ReplyModel, later: ReplyModel)
    requires
        opens_session(cmd),
        !(reply is Done),
    ensures
        ({
            let after = write_step(s, SD_CMD_PORT, cmd, reply);
            &&& after.target is Closed
            &&& after.status_byte() == 0x03
            &&& read_step(after, SD_STATUS_PORT, later) == (after, Some(0x03u8))
            &&& read_request(after, SD_DATA_PORT) is Nothing
            &&& read_step(after, SD_DATA_PORT, later) == (after, Some(0u8))
        }),
{
}

/// The state after the bytes of `bytes` were written to the file name port,
/// one after the other.
pub open spec fn after_name_bytes(s: SdModel, bytes: Seq<u8>) -> SdModel
    decreases bytes.len(),
{
    if bytes.len() == 0 {
        s
    } else {
        write_step(
            after_name_bytes(s, bytes.drop_last()),
            SD_FNAME_PORT,
            bytes.last(),
            ReplyModel::Done,
        )
    }
}

/// The pending name before any byte of the next one: nothing where the
/// name was ended by a terminator, the bytes so far otherwise.
pub open spec fn name_begun(s: SdModel) -> Seq<u8> {
    if s.name_done {
        Seq::empty()
    } else {
        s.filename
    }
}

/// Non-zero bytes written to the file name port are the pending name, in
/// order, behind what was begun before them; nothing else changes.
pub proof fn lemma_name_grows(s: SdModel, bytes: Seq<u8>)
    requires
        bytes.len() > 0,
        forall|i: int| 0 <= i < bytes.len() ==> bytes[i] != 0,
    ensures
        after_name_bytes(s, bytes) == (SdModel {
            filename: name_begun(s) + bytes,
            name_done: false,
            ..s
        }),
    decreases bytes.len(),
{
    let front = bytes.drop_last();
    if front.len() == 0 {
        assert(after_name_bytes(s, front) == s);
        assert(bytes =~= seq![bytes.last()]);
        assert(name_begun(s) + bytes =~= name_begun(s).push(bytes.last()));
    } else {
        lemma_name_grows(s, front);
        assert((name_begun(s) + front).push(bytes.last()) =~= name_begun(s) + bytes);
    }
}

/// The state after a whole name was written to the file name port: its
/// bytes, then the terminator.
pub open spec fn after_name(s: SdModel, name: Seq<u8>) -> SdModel {
    write_step(after_name_bytes(s, name), SD_FNAME_PORT, 0, ReplyModel::Done)
}

/// A command that takes the file name leaves none behind, whether it
/// succeeded or not: the bytes written to the file name port after it are
/// the whole of the next name, with or without a terminator behind them,
/// and the next open command asks for exactly that name.
pub proof fn law_fresh_filename(s: SdModel, cmd: u8, reply: ReplyModel, bytes: Seq<u8>, next: u8)
    requires
        uses_filename(cmd),
        uses_filename(next),
        forall|i: int| 0 <= i < bytes.len() ==> bytes[i] != 0,
    ensures
        write_step(s, SD_CMD_PORT, cmd, reply).filename == Seq::<u8>::empty(),
        !write_step(s, SD_CMD_PORT, cmd, reply).name_done,
        after_name_bytes(write_step(s, SD_CMD_PORT, cmd, reply), bytes).filename == bytes,
        after_name(write_step(s, SD_CMD_PORT, cmd, reply), bytes).filename == bytes,
        ({
            let req = write_request(
                after_name(write_step(s, SD_CMD_PORT, cmd, reply), bytes),
                SD_CMD_PORT,
                next,
            );
            req == RequestModel::OpenRead(bytes) || req == RequestModel::Create(bytes) || req
                == RequestModel::OpenAppend(bytes) || req == RequestModel::OpenReadWrite(bytes)
        }),
{
    let cleared = write_step(s, SD_CMD_PORT, cmd, reply);
    if bytes.len() > 0 {
        lemma_name_grows(cleared, bytes);
        assert(cleared.filename + bytes =~= bytes);
    } else {
        assert(bytes =~= Seq::<u8>::empty());
    }
}

/// The zero byte ends the pending name: the name stays as it is for the
/// next command to take, and nothing else changes. A second terminator
/// changes nothing more.
pub proof fn law_terminator_ends_name(s: SdModel, reply: ReplyModel, cmd: u8)
    requires
        uses_filename(cmd),
    ensures
        write_step(s, SD_FNAME_PORT, 0, reply) == (SdModel { name_done: true, ..s }),
        write_step(write_step(s, SD_FNAME_PORT, 0, reply), SD_FNAME_PORT, 0, reply) == write_step(
            s,
            SD_FNAME_PORT,
            0,
            reply,
        ),
        write_request(write_step(s, SD_FNAME_PORT, 0, reply), SD_CMD_PORT, cmd) == write_request(
            s,
            SD_CMD_PORT,
            cmd,
        ),
{
}

/// A name written behind a terminator replaces the name before it: after
/// one name, its terminator and a second name, with no command in between,
/// the pending name is the second one alone, whatever stood there before.
pub proof fn law_new_name_replaces(s: SdModel, first: Seq<u8>, second: Seq<u8>)
    requires
        second.len() > 0,
        forall|i: int| 0 <= i < first.len() ==> first[i] != 0,
        forall|i: int| 0 <= i < second.len() ==> second[i] != 0,
    ensures
        after_name_bytes(after_name(s, first), second).filename == second,
        after_name(after_name(s, first), second).filename == second,
        after_name(after_name(s, first), second) == (SdModel {
            filename: second,
            name_done: true,
            ..s
        }),
{
    let ended = after_name(s, first);
    if first.len() > 0 {
        lemma_name_grows(s, first);
    }
    lemma_name_grows(ended, second);
    assert(Seq::<u8>::empty() + second =~= second);
}

/// Only the file name port and the commands that take the name touch the
/// pending name.
pub proof fn law_name_is_kept(s: SdModel, port: u8, val: u8, reply: ReplyModel)
    requires
        port != SD_FNAME_PORT,
        !(port == SD_CMD_PORT && uses_filename(val)),
    ensures
        write_step(s, port, val, reply).filename == s.filename,
        write_step(s, port, val, reply).name_done == s.name_done,
        read_step(s, port, reply).0.filename == s.filename,
        read_step(s, port, reply).0.name_done == s.name_done,
{
}

/// Close with nothing open changes nothing but to clear ERROR: the card
/// asks nothing of the host, and the status reads READY alone.
pub proof fn law_close_when_closed(s: SdModel, reply: ReplyModel)
    requires
        s.target is Closed,
    ensures
        write_request(s, SD_CMD_PORT, CMD_CLOSE) is Nothing,
        write_step(s, SD_CMD_PORT, CMD_CLOSE, reply) == (SdModel { error: false, ..s }),
        write_step(s, SD_CMD_PORT, CMD_CLOSE, reply).status_byte() == 0x01,
{
}

/// Close never fails, whatever is open and whatever the host answers.
pub proof fn law_close_never_fails(s: SdModel, reply: ReplyModel)
    ensures
        write_step(s, SD_CMD_PORT, CMD_CLOSE, reply).target is Closed,
        !write_step(s, SD_CMD_PORT, CMD_CLOSE, reply).error,
{
}

/// The state after the three lanes of the seek cursor were written.
pub open spec fn after_cursor(s: SdModel, low: u8, high: u8, ext: u8) -> SdModel {
    write_step(
        write_step(write_step(s, SD_SEEK_LO, low, ReplyModel::Done), SD_SEEK_HI, high, ReplyModel::Done),
        SD_SEEK_EX,
        ext,
        ReplyModel::Done,
    )
}

/// Every offset below 2^24 can be put into the seek cursor, and with a file
/// open both seek-to-cursor commands then ask the host for exactly that
/// offset. Seek-to-start asks for offset 0 whatever the cursor holds. The
/// cursor outlives the command.
pub proof fn law_seek_to_cursor(s: SdModel, k: int, reply: ReplyModel)
    requires
        0 <= k < 0x1000000,
        s.file_open(),
    ensures
        ({
            let set = after_cursor(s, (k % 256) as u8, ((k / 256) % 256) as u8, (k / 65536) as u8);
            &&& set.cursor() == k
            &&& write_request(set, SD_CMD_PORT, CMD_SEEK_BYTE) == RequestModel::SeekTo(k)
            &&& write_request(set, SD_CMD_PORT, CMD_SEEK_16) == RequestModel::SeekTo(k)
            &&& write_request(set, SD_CMD_PORT, CMD_SEEK_START) == RequestModel::SeekTo(0)
            &&& write_step(set, SD_CMD_PORT, CMD_SEEK_BYTE, reply).cursor() == k
            &&& write_step(set, SD_CMD_PORT, CMD_SEEK_BYTE, reply).target == s.target
            &&& write_step(set, SD_CMD_PORT, CMD_SEEK_BYTE, reply).error == !(reply is Done)
        }),
{
}

/// The lanes of the cursor can be written in any order.
pub proof fn law_cursor_lanes_commute(s: SdModel, low: u8, high: u8, ext: u8)
    ensures
        after_cursor(s, low, high, ext) == write_step(
            write_step(
                write_step(s, SD_SEEK_EX, ext, ReplyModel::Done),
                SD_SEEK_LO,
                low,
                ReplyModel::Done,
            ),
            SD_SEEK_HI,
            high,
            ReplyModel::Done,
        ),
        after_cursor(s, low, high, ext).cursor() == low + 256 * high + 65536 * ext,
{
}

/// A seek with no file open is an error, and asks nothing of the host.
pub proof fn law_seek_needs_file(s: SdModel, cmd: u8, reply: ReplyModel)
    requires
        cmd == CMD_SEEK_START || cmd == CMD_SEEK_BYTE || cmd == CMD_SEEK_16,
        !s.file_open(),
    ensures
        write_request(s, SD_CMD_PORT, cmd) is Nothing,
        write_step(s, SD_CMD_PORT, cmd, reply) == (SdModel { error: true, ..s }),
{
}

/// Reading a file past its last byte is no error: the session ends, ERROR
/// is clear, the read gives zero, and so does every read after it.
pub proof fn law_end_of_stream(s: SdModel, reply: ReplyModel, later: ReplyModel)
    requires
        s.file_open(),
        !(reply is Byte),
    ensures
        ({
            let (after, value) = read_step(s, SD_DATA_PORT, reply);
            &&& value == Some(0u8)
            &&& after.target is Closed
            &&& !after.error
            &&& after.status_byte() == 0x01
            &&& read_request(after, SD_DATA_PORT) is Nothing
            &&& read_step(after, SD_DATA_PORT, later) == (after, Some(0u8))
        }),
{
}

/// While a readable file is open, the data port hands on each byte that the
/// host read, and the session stays as it is.
pub proof fn law_file_bytes_pass(s: SdModel, b: u8)
    requires
        s.readable(),
    ensures
        read_request(s, SD_DATA_PORT) is ReadByte,
        read_step(s, SD_DATA_PORT, ReplyModel::Byte(b)) == (s, Some(b)),
{
}

/// Writes to the data port never change the card: the byte goes to the
/// host where a writable file is open, and is dropped otherwise.
pub proof fn law_data_write(s: SdModel, val: u8, reply: ReplyModel)
    ensures
        write_step(s, SD_DATA_PORT, val, reply) == s,
        s.writable() ==> write_request(s, SD_DATA_PORT, val) == RequestModel::WriteByte(val),
        !s.writable() ==> write_request(s, SD_DATA_PORT, val) is Nothing,
{
}

/// A directory listing whose line in progress is used up.
pub open spec fn wants_entry(s: SdModel) -> bool {
    s.target matches TargetModel::Directory { text, pos } && !(0 <= pos < text.len())
}

/// The state after `n` reads from the data port to which the host had
/// nothing to add.
pub open spec fn after_reads(s: SdModel, n: nat) -> SdModel
    decreases n,
{
    if n == 0 {
        s
    } else {
        data_read_step(after_reads(s, (n - 1) as nat), ReplyModel::Failed).0
    }
}

/// A listed line is the entry's name, then CR, then LF.
pub proof fn law_line_shape(name: Seq<u8>)
    ensures
        entry_line(name).len() == name.len() + 2,
        entry_line(name).subrange(0, name.len() as int) == name,
        entry_line(name)[name.len() as int] == CR,
        entry_line(name)[name.len() as int + 1] == LF,
{
    assert(entry_line(name).subrange(0, name.len() as int) =~= name);
}

/// The entries `.` and `..` are never listed: handed such an entry, the card
/// emits nothing, stays as it is and asks for the next one. Any other entry
/// starts a line.
pub proof fn law_pseudo_entries_skipped(s: SdModel, name: Seq<u8>)
    requires
        wants_entry(s),
    ensures
        read_request(s, SD_DATA_PORT) is NextEntry,
        is_pseudo_entry(name) <==> (name == seq![DOT] || name == seq![DOT, DOT]),
        is_pseudo_entry(name) ==> read_step(s, SD_DATA_PORT, ReplyModel::Entry(name)) == (
            s,
            None::<u8>,
        ),
        !is_pseudo_entry(name) ==> read_step(s, SD_DATA_PORT, ReplyModel::Entry(name)) == (
            SdModel { target: TargetModel::Directory { text: entry_line(name), pos: 1 }, ..s },
            Some(entry_line(name)[0]),
        ),
{
    if is_pseudo_entry(name) {
        if name.len() == 1 {
            assert(name =~= seq![DOT]);
        } else {
            assert(name =~= seq![DOT, DOT]);
        }
    }
}

/// Once an entry is taken, its line comes out byte by byte, in order and
/// whole, without a word from the host: read number `k` after the first
/// gives byte `k` of the line. After the last byte the card asks for the
/// next entry.
pub proof fn law_line_streams(s: SdModel, name: Seq<u8>, k: nat, reply: ReplyModel)
    requires
        wants_entry(s),
        !is_pseudo_entry(name),
        1 <= k <= name.len() + 2,
    ensures
        ({
            let taken = read_step(s, SD_DATA_PORT, ReplyModel::Entry(name)).0;
            let here = after_reads(taken, (k - 1) as nat);
            &&& here == (SdModel {
                target: TargetModel::Directory { text: entry_line(name), pos: k as int },
                ..s
            })
            &&& k < name.len() + 2 ==> read_request(here, SD_DATA_PORT) is Nothing && read_step(
                here,
                SD_DATA_PORT,
                reply,
            ).1 == Some(entry_line(name)[k as int])
            &&& k == name.len() + 2 ==> read_request(here, SD_DATA_PORT) is NextEntry
        }),
    decreases k,
{
    if k > 1 {
        law_line_streams(s, name, (k - 1) as nat, reply);
    }
}

/// When the host has no further entry, the listing ends: DATA and ERROR are
/// clear, the read gives zero, and so does every read after it.
pub proof fn law_listing_ends(s: SdModel, reply: ReplyModel, later: ReplyModel)
    requires
        wants_entry(s),
        !(reply is Entry),
    ensures
        ({
            let (after, value) = read_step(s, SD_DATA_PORT, reply);
            &&& value == Some(0u8)
            &&& after.target is Closed
            &&& after.status_byte() == 0x01
            &&& read_request(after, SD_DATA_PORT) is Nothing
            &&& read_step(after, SD_DATA_PORT, later) == (after, Some(0u8))
        }),
{
}

/// A block command with no memory bound or no file open in the right mode
/// records an error and asks nothing of the host, and so does the transfer
/// itself. With both at hand the outcome is the host's: a block read
/// succeeds on any bytes read, even none, a block write once the block is
/// written.
pub proof fn law_block_preconditions(s: SdModel, val: u8, reply: ReplyModel)
    ensures
        !(s.memory_bound && s.file_open()) ==> {
            &&& write_request(s, SD_BLOCK_CMD, val) is Nothing
            &&& write_step(s, SD_BLOCK_CMD, val, reply).block_status == BLOCK_ERROR
            &&& block_read_step(s, reply).block_status == BLOCK_ERROR
            &&& block_write_step(s, reply).block_status == BLOCK_ERROR
        },
        s.memory_bound && s.readable() ==> {
            &&& write_request(s, SD_BLOCK_CMD, 0) is ReadBlock
            &&& (block_read_step(s, reply).block_status == 0 <==> reply is Block)
        },
        s.memory_bound && s.writable() && val != 0 ==> {
            &&& write_request(s, SD_BLOCK_CMD, val) is WriteBlock
            &&& (block_write_step(s, reply).block_status == 0 <==> reply is Done)
        },
        read_step(s, SD_BLOCK_CMD, reply) == (s, Some(s.block_status)),
{
}

/// The outcome of a block transfer and the status of the last command are
/// kept apart: a transfer leaves the status byte, the session and
/// everything else as they are, and no command touches the outcome byte.
pub proof fn law_block_status_apart(s: SdModel, cmd: u8, reply: ReplyModel)
    ensures
        block_read_step(s, reply) == (SdModel {
            block_status: block_read_step(s, reply).block_status,
            ..s
        }),
        block_write_step(s, reply) == (SdModel {
            block_status: block_write_step(s, reply).block_status,
            ..s
        }),
        block_read_step(s, reply).status_byte() == s.status_byte(),
        block_write_step(s, reply).status_byte() == s.status_byte(),
        command_step(s, cmd, reply).block_status == s.block_status,
{
}

/// A block is always 128 bytes: what the host read comes first, zeros fill
/// the rest.
pub proof fn law_block_padding(data: Seq<u8>, i: int)
    requires
        0 <= i < BLOCK_SIZE,
    ensures
        padded_block(data).len() == BLOCK_SIZE,
        i < data.len() ==> padded_block(data)[i] == data[i],
        i >= data.len() ==> padded_block(data)[i] == 0,
{
}

/// In a store that is written through the first `n` bytes of a block, each
/// address of the window holds its byte of the block and every other
/// address what it held before.
proof fn lemma_block_prefix(
    heap: Seq<u8>,
    pages: Map<int, (int, bool)>,
    base: int,
    block: Seq<u8>,
    n: nat,
)
    requires
        flat(heap, pages),
        0 <= base < ADDRESS_SPACE,
        n <= block.len(),
    ensures
        heap_after_block(heap, pages, base, block, n).len() == heap.len(),
        forall|a: int|
            0 <= a < heap.len() ==> #[trigger] heap_after_block(heap, pages, base, block, n)[a]
                == if base <= a < base + n && a < ADDRESS_SPACE {
                block[a - base]
            } else {
                heap[a]
            },
    decreases n,
{
    if n > 0 {
        lemma_block_prefix(heap, pages, base, block, (n - 1) as nat);
        let at = base + n - 1;
        if at < ADDRESS_SPACE {
            assert(pages.contains_key(at));
            assert(pages[at] == (at, true));
        }
    }
}

/// In a memory that is mapped one to one and writable throughout, a block
/// read puts each byte of the block at its address of the window, leaves
/// out what lies past the end of the address space, and changes no other
/// address. Gathered again from the same window, the block comes back.
pub proof fn law_block_lands(
    heap: Seq<u8>,
    pages: Map<int, (int, bool)>,
    base: int,
    block: Seq<u8>,
    a: int,
)
    requires
        flat(heap, pages),
        0 <= base < ADDRESS_SPACE,
        block.len() == BLOCK_SIZE,
        0 <= a < ADDRESS_SPACE,
    ensures
        byte_seen(heap_after_block(heap, pages, base, block, BLOCK_SIZE as nat), pages, a) == if base
            <= a < base + BLOCK_SIZE {
            block[a - base]
        } else {
            byte_seen(heap, pages, a)
        },
        base <= a < base + BLOCK_SIZE ==> window_bytes(
            heap_after_block(heap, pages, base, block, BLOCK_SIZE as nat),
            pages,
            base,
        )[a - base] == block[a - base],
{
    lemma_block_prefix(heap, pages, base, block, BLOCK_SIZE as nat);
    assert(pages.contains_key(a));
    assert(pages[a] == (a, true));
}

/// A card at power-on is idle with nothing open: its status reads READY
/// alone, its data port reads zero, and the DMA address is 0x0080.
pub proof fn law_power_on(reply: ReplyModel)
    ensures
        initial_model().status_byte() == 0x01,
        initial_model().window() == 0x0080,
        initial_model().cursor() == 0,
        read_step(initial_model(), SD_DATA_PORT, reply) == (initial_model(), Some(0u8)),
{
}

} // verus!
