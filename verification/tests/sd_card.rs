use retroshield::host::{HostReply, HostRequest};
use retroshield::ports::{
    BLOCK_SIZE, CMD_CLOSE, CMD_CREATE, CMD_DIR, CMD_OPEN_APPEND, CMD_OPEN_READ, CMD_OPEN_RW,
    CMD_SEEK_16, CMD_SEEK_BYTE, CMD_SEEK_START, SD_BLOCK_CMD, SD_CMD_PORT, SD_DATA_PORT,
    SD_DMA_HI, SD_DMA_LO, SD_FNAME_PORT, SD_SEEK_EX, SD_SEEK_HI, SD_SEEK_LO, SD_STATUS_PORT,
};
use retroshield::sd::SdCard;
use rz80::Memory;

/// A storage root held in memory, serving the card's requests.
struct Disk {
    files: Vec<(Vec<u8>, Vec<u8>)>,
    open: Option<(usize, usize, bool)>,
    listing: Option<Vec<Vec<u8>>>,
    requests: usize,
}

impl Disk {
    fn new() -> Disk {
        Disk { files: Vec::new(), open: None, listing: None, requests: 0 }
    }

    fn find(&self, name: &[u8]) -> Option<usize> {
        self.files.iter().position(|f| f.0 == name)
    }

    fn content(&self, name: &str) -> Vec<u8> {
        self.files[self.find(name.as_bytes()).unwrap()].1.clone()
    }

    fn put(&mut self, name: &str, content: &[u8]) {
        self.files.push((name.as_bytes().to_vec(), content.to_vec()));
    }

    fn release(&mut self) {
        self.open = None;
        self.listing = None;
    }

    fn open_existing(&mut self, name: &[u8], writable: bool, at_end: bool) -> HostReply {
        self.release();
        match self.find(name) {
            Some(i) => {
                let pos = if at_end { self.files[i].1.len() } else { 0 };
                self.open = Some((i, pos, writable));
                HostReply::Done
            }
            None => HostReply::Failed,
        }
    }

    fn write_at(&mut self, bytes: &[u8]) -> HostReply {
        match self.open {
            Some((i, pos, true)) => {
                let file = &mut self.files[i].1;
                if file.len() < pos + bytes.len() {
                    file.resize(pos + bytes.len(), 0);
                }
                file[pos..pos + bytes.len()].copy_from_slice(bytes);
                self.open = Some((i, pos + bytes.len(), true));
                HostReply::Done
            }
            _ => HostReply::Failed,
        }
    }

    fn serve(&mut self, req: HostRequest) -> HostReply {
        if req != HostRequest::Nothing {
            self.requests += 1;
        }
        match req {
            HostRequest::Nothing => HostReply::Done,
            HostRequest::OpenRead(name) => self.open_existing(&name, false, false),
            HostRequest::OpenReadWrite(name) => self.open_existing(&name, true, false),
            HostRequest::OpenAppend(name) => self.open_existing(&name, true, true),
            HostRequest::Create(name) => {
                self.release();
                if name.is_empty() {
                    return HostReply::Failed;
                }
                let i = match self.find(&name) {
                    Some(i) => {
                        self.files[i].1.clear();
                        i
                    }
                    None => {
                        self.files.push((name, Vec::new()));
                        self.files.len() - 1
                    }
                };
                self.open = Some((i, 0, true));
                HostReply::Done
            }
            HostRequest::SeekTo(offset) => match self.open {
                Some((i, _, w)) => {
                    self.open = Some((i, offset as usize, w));
                    HostReply::Done
                }
                None => HostReply::Failed,
            },
            HostRequest::Close => {
                self.release();
                HostReply::Done
            }
            HostRequest::ListDirectory => {
                self.release();
                let mut names: Vec<Vec<u8>> = vec![b".".to_vec(), b"..".to_vec()];
                for f in &self.files {
                    names.push(f.0.clone());
                }
                names.reverse();
                self.listing = Some(names);
                HostReply::Done
            }
            HostRequest::ReadByte => match self.open {
                Some((i, pos, w)) if pos < self.files[i].1.len() => {
                    self.open = Some((i, pos + 1, w));
                    HostReply::Byte(self.files[i].1[pos])
                }
                _ => HostReply::Failed,
            },
            HostRequest::WriteByte(b) => self.write_at(&[b]),
            HostRequest::NextEntry => match &mut self.listing {
                Some(names) => match names.pop() {
                    Some(name) => HostReply::Entry(name),
                    None => HostReply::Failed,
                },
                None => HostReply::Failed,
            },
            HostRequest::ReadBlock => match self.open {
                Some((i, pos, w)) => {
                    let file = &self.files[i].1;
                    let from = pos.min(file.len());
                    let to = (pos + BLOCK_SIZE).min(file.len()).max(from);
                    let data = file[from..to].to_vec();
                    self.open = Some((i, pos + data.len(), w));
                    HostReply::Block(data)
                }
                None => HostReply::Failed,
            },
            HostRequest::WriteBlock => HostReply::Failed,
        }
    }
}

/// A card, its host and the guest's memory.
struct Rig {
    card: SdCard,
    disk: Disk,
    mem: Memory,
}

impl Rig {
    fn new() -> Rig {
        Rig { card: SdCard::new(), disk: Disk::new(), mem: Memory::new_64k() }
    }

    fn out(&mut self, port: u8, val: u8) {
        match self.card.write_request(port, val) {
            HostRequest::ReadBlock => {
                self.disk.requests += 1;
                let reply = self.disk.serve(HostRequest::ReadBlock);
                self.card.do_block_read(&mut self.mem, reply);
            }
            HostRequest::WriteBlock => {
                self.disk.requests += 1;
                let block = self.card.block_from_memory(&self.mem);
                let reply = self.disk.write_at(&block);
                self.card.do_block_write(reply);
            }
            req => {
                let reply = self.disk.serve(req);
                self.card.write_port(port, val, reply);
            }
        }
    }

    fn inp(&mut self, port: u8) -> u8 {
        loop {
            let reply = self.disk.serve(self.card.read_request(port));
            if let Some(b) = self.card.read_port(port, reply) {
                return b;
            }
        }
    }

    fn name(&mut self, name: &str) {
        for b in name.bytes() {
            self.out(SD_FNAME_PORT, b);
        }
        self.out(SD_FNAME_PORT, 0);
    }

    fn command(&mut self, cmd: u8) {
        self.out(SD_CMD_PORT, cmd);
    }

    fn status(&mut self) -> u8 {
        self.inp(SD_STATUS_PORT)
    }

    fn read_all(&mut self) -> Vec<u8> {
        let mut out = Vec::new();
        while self.status() & 0x80 != 0 {
            let b = self.inp(SD_DATA_PORT);
            if self.status() & 0x80 != 0 {
                out.push(b);
            }
        }
        out
    }

    fn set_dma(&mut self, addr: u16) {
        self.out(SD_DMA_LO, (addr & 0xFF) as u8);
        self.out(SD_DMA_HI, (addr >> 8) as u8);
    }

    fn set_cursor(&mut self, k: u32) {
        self.out(SD_SEEK_LO, (k & 0xFF) as u8);
        self.out(SD_SEEK_HI, ((k >> 8) & 0xFF) as u8);
        self.out(SD_SEEK_EX, ((k >> 16) & 0xFF) as u8);
    }
}

#[test]
fn power_on_state() {
    let mut rig = Rig::new();
    assert_eq!(rig.status(), 0x01);
    assert_eq!(rig.inp(SD_DATA_PORT), 0);
    assert_eq!(rig.inp(SD_BLOCK_CMD), 0);
    assert_eq!(rig.card.dma_addr(), 0x0080);
    assert_eq!(rig.card.seek_pos(), 0);
    assert!(!rig.card.debug());
    assert_eq!(rig.disk.requests, 0);
}

#[test]
fn open_missing_file_sets_error() {
    let mut rig = Rig::new();
    rig.name("nothere.txt");
    rig.command(CMD_OPEN_READ);
    assert_eq!(rig.status(), 0x03);
    assert_eq!(rig.inp(SD_DATA_PORT), 0);
    assert_eq!(rig.status(), 0x03);
}

#[test]
fn open_request_carries_the_name() {
    let mut card = SdCard::new();
    for b in b"HELLO.TXT" {
        card.write_port(SD_FNAME_PORT, *b, HostReply::Done);
    }
    card.write_port(SD_FNAME_PORT, 0, HostReply::Done);
    assert_eq!(
        card.write_request(SD_CMD_PORT, CMD_OPEN_READ),
        HostRequest::OpenRead(b"HELLO.TXT".to_vec())
    );
    assert_eq!(
        card.write_request(SD_CMD_PORT, CMD_CREATE),
        HostRequest::Create(b"HELLO.TXT".to_vec())
    );
    assert_eq!(
        card.write_request(SD_CMD_PORT, CMD_OPEN_APPEND),
        HostRequest::OpenAppend(b"HELLO.TXT".to_vec())
    );
    assert_eq!(
        card.write_request(SD_CMD_PORT, CMD_OPEN_RW),
        HostRequest::OpenReadWrite(b"HELLO.TXT".to_vec())
    );
    assert_eq!(card.write_request(SD_CMD_PORT, CMD_DIR), HostRequest::ListDirectory);
    assert_eq!(card.write_request(SD_CMD_PORT, CMD_CLOSE), HostRequest::Nothing);
    assert_eq!(card.write_request(SD_CMD_PORT, CMD_SEEK_START), HostRequest::Nothing);
    assert_eq!(card.write_request(SD_CMD_PORT, 0x55), HostRequest::Nothing);
}

#[test]
fn create_write_close_read_back() {
    let mut rig = Rig::new();
    let bytes: Vec<u8> = (0..=255u8).chain(0..40u8).collect();
    rig.name("data.bin");
    rig.command(CMD_CREATE);
    assert_eq!(rig.status(), 0x81);
    for b in &bytes {
        rig.out(SD_DATA_PORT, *b);
    }
    assert_eq!(rig.status(), 0x81);
    rig.command(CMD_CLOSE);
    assert_eq!(rig.status(), 0x01);
    assert_eq!(rig.disk.content("data.bin"), bytes);
    rig.name("data.bin");
    rig.command(CMD_OPEN_READ);
    assert_eq!(rig.status(), 0x81);
    for b in &bytes {
        assert_eq!(rig.inp(SD_DATA_PORT), *b);
    }
    assert_eq!(rig.inp(SD_DATA_PORT), 0);
    assert_eq!(rig.status(), 0x01);
}

#[test]
fn seek_to_start_rereads_from_the_beginning() {
    let mut rig = Rig::new();
    let bytes = b"The quick brown fox".to_vec();
    rig.name("fox.txt");
    rig.command(CMD_CREATE);
    for b in &bytes {
        rig.out(SD_DATA_PORT, *b);
    }
    rig.command(CMD_SEEK_START);
    assert_eq!(rig.status(), 0x81);
    for b in &bytes {
        assert_eq!(rig.inp(SD_DATA_PORT), *b);
    }
}

#[test]
fn seek_to_cursor_positions_reads_and_writes() {
    let mut rig = Rig::new();
    let content: Vec<u8> = (0..1000u32).map(|i| (i % 251) as u8).collect();
    rig.disk.put("big.bin", &content);
    rig.name("big.bin");
    rig.command(CMD_OPEN_RW);
    rig.set_cursor(600);
    assert_eq!(rig.card.seek_pos(), 600);
    assert_eq!(rig.card.write_request(SD_CMD_PORT, CMD_SEEK_BYTE), HostRequest::SeekTo(600));
    assert_eq!(rig.card.write_request(SD_CMD_PORT, CMD_SEEK_16), HostRequest::SeekTo(600));
    rig.command(CMD_SEEK_BYTE);
    assert_eq!(rig.status(), 0x81);
    assert_eq!(rig.inp(SD_DATA_PORT), content[600]);
    assert_eq!(rig.inp(SD_DATA_PORT), content[601]);
    rig.set_cursor(3);
    rig.command(CMD_SEEK_16);
    rig.out(SD_DATA_PORT, 0xEE);
    assert_eq!(rig.disk.content("big.bin")[3], 0xEE);
    assert_eq!(rig.disk.content("big.bin")[2], content[2]);
    assert_eq!(rig.disk.content("big.bin").len(), 1000);
}

#[test]
fn cursor_is_made_of_three_lanes() {
    let mut rig = Rig::new();
    rig.out(SD_SEEK_EX, 0xAB);
    rig.out(SD_SEEK_LO, 0xEF);
    rig.out(SD_SEEK_HI, 0xCD);
    assert_eq!(rig.card.seek_pos(), 0xABCDEF);
    rig.out(SD_SEEK_HI, 0x00);
    assert_eq!(rig.card.seek_pos(), 0xAB00EF);
    rig.set_cursor(0xFFFFFF);
    assert_eq!(rig.card.seek_pos(), 16_777_215);
    rig.disk.put("f", b"x");
    rig.name("f");
    rig.command(CMD_OPEN_READ);
    rig.command(CMD_CLOSE);
    assert_eq!(rig.card.seek_pos(), 0xFFFFFF);
}

#[test]
fn seek_past_end_then_read_is_end_of_stream() {
    let mut rig = Rig::new();
    rig.disk.put("short.txt", b"abc");
    rig.name("short.txt");
    rig.command(CMD_OPEN_READ);
    rig.set_cursor(5000);
    rig.command(CMD_SEEK_BYTE);
    assert_eq!(rig.status(), 0x81);
    assert_eq!(rig.inp(SD_DATA_PORT), 0);
    assert_eq!(rig.status(), 0x01);
    assert_eq!(rig.inp(SD_DATA_PORT), 0);
}

#[test]
fn seek_without_file_is_an_error() {
    let mut rig = Rig::new();
    rig.command(CMD_SEEK_START);
    assert_eq!(rig.status(), 0x03);
    rig.command(CMD_CLOSE);
    assert_eq!(rig.status(), 0x01);
    rig.command(CMD_SEEK_BYTE);
    assert_eq!(rig.status(), 0x03);
    rig.command(CMD_SEEK_16);
    assert_eq!(rig.status(), 0x03);
    rig.command(CMD_DIR);
    assert_eq!(rig.status(), 0x81);
    rig.command(CMD_SEEK_START);
    assert_eq!(rig.status(), 0x83);
}

#[test]
fn failed_seek_is_reported() {
    let mut card = SdCard::new();
    card.write_port(SD_CMD_PORT, CMD_OPEN_RW, HostReply::Done);
    card.write_port(SD_CMD_PORT, CMD_SEEK_BYTE, HostReply::Failed);
    assert_eq!(card.read_port(SD_STATUS_PORT, HostReply::Done), Some(0x83));
    card.write_port(SD_CMD_PORT, CMD_SEEK_BYTE, HostReply::Done);
    assert_eq!(card.read_port(SD_STATUS_PORT, HostReply::Done), Some(0x81));
}

#[test]
fn directory_listing_skips_pseudo_entries() {
    let mut rig = Rig::new();
    rig.disk.put("a.txt", b"1");
    rig.disk.put("b.txt", b"2");
    rig.command(CMD_DIR);
    assert_eq!(rig.status(), 0x81);
    let text = rig.read_all();
    assert_eq!(text, b"a.txt\r\nb.txt\r\n".to_vec());
    assert_eq!(rig.status(), 0x01);
    assert_eq!(rig.inp(SD_DATA_PORT), 0);
    assert_eq!(rig.inp(SD_DATA_PORT), 0);
}

#[test]
fn pseudo_entry_asks_for_another() {
    let mut card = SdCard::new();
    card.write_port(SD_CMD_PORT, CMD_DIR, HostReply::Done);
    assert_eq!(card.read_request(SD_DATA_PORT), HostRequest::NextEntry);
    assert_eq!(card.read_port(SD_DATA_PORT, HostReply::Entry(b".".to_vec())), None);
    assert_eq!(card.read_request(SD_DATA_PORT), HostRequest::NextEntry);
    assert_eq!(card.read_port(SD_DATA_PORT, HostReply::Entry(b"..".to_vec())), None);
    assert_eq!(card.read_port(SD_DATA_PORT, HostReply::Entry(b"...".to_vec())), Some(b'.'));
    assert_eq!(card.read_request(SD_DATA_PORT), HostRequest::Nothing);
    assert_eq!(card.read_port(SD_DATA_PORT, HostReply::Failed), Some(b'.'));
    assert_eq!(card.read_port(SD_DATA_PORT, HostReply::Failed), Some(b'.'));
    assert_eq!(card.read_port(SD_DATA_PORT, HostReply::Failed), Some(b'\r'));
    assert_eq!(card.read_port(SD_DATA_PORT, HostReply::Failed), Some(b'\n'));
    assert_eq!(card.read_request(SD_DATA_PORT), HostRequest::NextEntry);
    assert_eq!(card.read_port(SD_DATA_PORT, HostReply::Entry(Vec::new())), Some(b'\r'));
    assert_eq!(card.read_port(SD_DATA_PORT, HostReply::Failed), Some(b'\n'));
    assert_eq!(card.read_port(SD_DATA_PORT, HostReply::Failed), Some(0));
    assert_eq!(card.read_port(SD_STATUS_PORT, HostReply::Failed), Some(0x01));
}

#[test]
fn failed_listing_sets_error() {
    let mut card = SdCard::new();
    card.write_port(SD_CMD_PORT, CMD_OPEN_RW, HostReply::Done);
    card.write_port(SD_CMD_PORT, CMD_DIR, HostReply::Failed);
    assert_eq!(card.read_port(SD_STATUS_PORT, HostReply::Done), Some(0x03));
    assert_eq!(card.read_port(SD_DATA_PORT, HostReply::Byte(9)), Some(0));
}

#[test]
fn block_read_without_file_leaves_memory() {
    let mut rig = Rig::new();
    rig.card.set_cpu_mem();
    for i in 0..256 {
        rig.mem.w8(i, 0x5A);
    }
    rig.out(SD_BLOCK_CMD, 0);
    assert_eq!(rig.inp(SD_BLOCK_CMD), 1);
    rig.card.do_block_read(&mut rig.mem, HostReply::Block(vec![1, 2, 3]));
    assert_eq!(rig.inp(SD_BLOCK_CMD), 1);
    for i in 0..256 {
        assert_eq!(rig.mem.r8(i), 0x5A);
    }
    assert_eq!(rig.disk.requests, 0);
}

#[test]
fn block_read_without_memory_is_an_error() {
    let mut rig = Rig::new();
    rig.disk.put("f.bin", &[7u8; 200]);
    rig.name("f.bin");
    rig.command(CMD_OPEN_READ);
    let before = rig.disk.requests;
    rig.out(SD_BLOCK_CMD, 0);
    assert_eq!(rig.inp(SD_BLOCK_CMD), 1);
    rig.out(SD_BLOCK_CMD, 1);
    assert_eq!(rig.inp(SD_BLOCK_CMD), 1);
    assert_eq!(rig.disk.requests, before);
    assert_eq!(rig.mem.r8(0x80), 0);
    assert_eq!(rig.inp(SD_DATA_PORT), 7);
}

#[test]
fn block_read_pads_a_short_file() {
    let mut rig = Rig::new();
    rig.card.set_cpu_mem();
    let content: Vec<u8> = (1..=50u8).collect();
    rig.disk.put("fifty.bin", &content);
    for i in 0..0x200 {
        rig.mem.w8(i, 0xCC);
    }
    rig.name("fifty.bin");
    rig.command(CMD_OPEN_READ);
    rig.out(SD_BLOCK_CMD, 0);
    assert_eq!(rig.inp(SD_BLOCK_CMD), 0);
    for i in 0..50 {
        assert_eq!(rig.mem.r8(0x80 + i), content[i as usize] as i32);
    }
    for i in 50..128 {
        assert_eq!(rig.mem.r8(0x80 + i), 0);
    }
    assert_eq!(rig.mem.r8(0x7F), 0xCC);
    assert_eq!(rig.mem.r8(0x100), 0xCC);
    rig.out(SD_BLOCK_CMD, 0);
    assert_eq!(rig.inp(SD_BLOCK_CMD), 0);
    for i in 0..128 {
        assert_eq!(rig.mem.r8(0x80 + i), 0);
    }
}

#[test]
fn block_read_follows_the_dma_address() {
    let mut rig = Rig::new();
    rig.card.set_cpu_mem();
    let content: Vec<u8> = (0..200u8).collect();
    rig.disk.put("two.bin", &content);
    rig.name("two.bin");
    rig.command(CMD_OPEN_READ);
    rig.set_dma(0x4321);
    assert_eq!(rig.card.dma_addr(), 0x4321);
    rig.out(SD_BLOCK_CMD, 0);
    rig.set_dma(0x5000);
    rig.out(SD_BLOCK_CMD, 0);
    for i in 0..128 {
        assert_eq!(rig.mem.r8(0x4321 + i), i);
    }
    for i in 0..72 {
        assert_eq!(rig.mem.r8(0x5000 + i), 128 + i);
    }
    for i in 72..128 {
        assert_eq!(rig.mem.r8(0x5000 + i), 0);
    }
}

#[test]
fn block_read_does_not_wrap_around() {
    let mut rig = Rig::new();
    rig.card.set_cpu_mem();
    rig.disk.put("full.bin", &[0x11u8; 128]);
    rig.name("full.bin");
    rig.command(CMD_OPEN_READ);
    rig.set_dma(0xFFC0);
    rig.out(SD_BLOCK_CMD, 0);
    assert_eq!(rig.inp(SD_BLOCK_CMD), 0);
    for i in 0xFFC0..0x10000 {
        assert_eq!(rig.mem.r8(i), 0x11);
    }
    for i in 0..0x40 {
        assert_eq!(rig.mem.r8(i), 0);
    }
}

#[test]
fn block_read_host_failure_is_an_error() {
    let mut card = SdCard::new();
    let mut mem = Memory::new_64k();
    card.set_cpu_mem();
    card.write_port(SD_CMD_PORT, CMD_OPEN_READ, HostReply::Done);
    assert_eq!(card.write_request(SD_BLOCK_CMD, 0), HostRequest::ReadBlock);
    card.do_block_read(&mut mem, HostReply::Failed);
    assert_eq!(card.read_port(SD_BLOCK_CMD, HostReply::Done), Some(1));
    card.do_block_read(&mut mem, HostReply::Block(Vec::new()));
    assert_eq!(card.read_port(SD_BLOCK_CMD, HostReply::Done), Some(0));
    card.do_block_read(&mut mem, HostReply::Block(vec![9u8; 300]));
    assert_eq!(mem.r8(0x80 + 127), 9);
    assert_eq!(mem.r8(0x80 + 128), 0);
}

#[test]
fn block_write_is_always_a_whole_block() {
    let mut rig = Rig::new();
    rig.card.set_cpu_mem();
    rig.mem.w8(0x80, 0xAA);
    rig.mem.w8(0x81, 0xBB);
    rig.name("out.bin");
    rig.command(CMD_CREATE);
    rig.out(SD_BLOCK_CMD, 1);
    assert_eq!(rig.inp(SD_BLOCK_CMD), 0);
    let written = rig.disk.content("out.bin");
    assert_eq!(written.len(), 128);
    assert_eq!(written[0], 0xAA);
    assert_eq!(written[1], 0xBB);
    assert!(written[2..].iter().all(|b| *b == 0));
    rig.out(SD_BLOCK_CMD, 0xFF);
    assert_eq!(rig.disk.content("out.bin").len(), 256);
}

#[test]
fn block_from_memory_reads_the_window() {
    let mut card = SdCard::new();
    let mut mem = Memory::new_64k();
    for i in 0..0x10000 {
        mem.w8(i, (i % 253) as i32);
    }
    card.write_port(SD_DMA_LO, 0x34, HostReply::Done);
    card.write_port(SD_DMA_HI, 0x12, HostReply::Done);
    let block = card.block_from_memory(&mem);
    assert_eq!(block.len(), 128);
    for i in 0..128usize {
        assert_eq!(block[i], ((0x1234 + i) % 253) as u8);
    }
    card.write_port(SD_DMA_LO, 0xF0, HostReply::Done);
    card.write_port(SD_DMA_HI, 0xFF, HostReply::Done);
    let block = card.block_from_memory(&mem);
    assert_eq!(block.len(), 128);
    for i in 0..16usize {
        assert_eq!(block[i], ((0xFFF0 + i) % 253) as u8);
    }
    for i in 16..128usize {
        assert_eq!(block[i], 0);
    }
}

#[test]
fn block_write_to_read_only_file_is_an_error() {
    let mut rig = Rig::new();
    rig.card.set_cpu_mem();
    rig.disk.put("ro.bin", b"keep");
    rig.name("ro.bin");
    rig.command(CMD_OPEN_READ);
    rig.out(SD_BLOCK_CMD, 1);
    assert_eq!(rig.inp(SD_BLOCK_CMD), 1);
    rig.out(SD_DATA_PORT, b'X');
    assert_eq!(rig.disk.content("ro.bin"), b"keep".to_vec());
    assert_eq!(rig.status(), 0x81);
}

#[test]
fn filename_starts_fresh_after_use() {
    let mut rig = Rig::new();
    rig.name("first.txt");
    rig.command(CMD_OPEN_READ);
    assert_eq!(rig.status(), 0x03);
    rig.name("second.txt");
    assert_eq!(
        rig.card.write_request(SD_CMD_PORT, CMD_CREATE),
        HostRequest::Create(b"second.txt".to_vec())
    );
    rig.command(CMD_CREATE);
    assert_eq!(rig.status(), 0x81);
    assert_eq!(rig.card.write_request(SD_CMD_PORT, CMD_OPEN_RW), HostRequest::OpenReadWrite(Vec::new()));
    rig.name("third");
    rig.command(CMD_OPEN_APPEND);
    rig.name("fourth");
    rig.command(CMD_OPEN_RW);
    assert_eq!(
        rig.card.write_request(SD_CMD_PORT, CMD_OPEN_READ),
        HostRequest::OpenRead(Vec::new())
    );
}

#[test]
fn filename_survives_commands_that_do_not_use_it() {
    let mut rig = Rig::new();
    rig.name("keep.txt");
    rig.command(CMD_CLOSE);
    rig.command(CMD_DIR);
    rig.command(CMD_SEEK_START);
    rig.command(0xF0);
    rig.set_cursor(0x123456);
    rig.set_dma(0x4000);
    rig.out(SD_DATA_PORT, b'x');
    rig.out(SD_BLOCK_CMD, 0);
    assert_eq!(rig.inp(SD_DATA_PORT), 0);
    assert_eq!(rig.card.filename(), b"keep.txt".to_vec());
    assert_eq!(
        rig.card.write_request(SD_CMD_PORT, CMD_OPEN_READ),
        HostRequest::OpenRead(b"keep.txt".to_vec())
    );
}

#[test]
fn second_name_replaces_the_first() {
    let mut rig = Rig::new();
    rig.name("a");
    assert_eq!(rig.card.filename(), b"a".to_vec());
    rig.out(SD_FNAME_PORT, b'b');
    assert_eq!(rig.card.filename(), b"b".to_vec());
    rig.out(SD_FNAME_PORT, 0);
    assert_eq!(rig.card.filename(), b"b".to_vec());
    assert_eq!(
        rig.card.write_request(SD_CMD_PORT, CMD_OPEN_READ),
        HostRequest::OpenRead(b"b".to_vec())
    );
    rig.name("first.txt");
    rig.name("second.txt");
    assert_eq!(
        rig.card.write_request(SD_CMD_PORT, CMD_CREATE),
        HostRequest::Create(b"second.txt".to_vec())
    );
    rig.command(CMD_CREATE);
    assert_eq!(rig.status(), 0x81);
    assert_eq!(rig.disk.files.len(), 1);
    assert_eq!(rig.disk.content("second.txt"), Vec::<u8>::new());
}

#[test]
fn terminator_ends_the_name_and_keeps_it() {
    let mut card = SdCard::new();
    card.write_port(SD_FNAME_PORT, 0, HostReply::Done);
    assert_eq!(card.filename(), Vec::<u8>::new());
    card.write_port(SD_FNAME_PORT, b'x', HostReply::Done);
    card.write_port(SD_FNAME_PORT, b'y', HostReply::Done);
    assert_eq!(card.filename(), b"xy".to_vec());
    card.write_port(SD_FNAME_PORT, 0, HostReply::Done);
    card.write_port(SD_FNAME_PORT, 0, HostReply::Done);
    assert_eq!(card.filename(), b"xy".to_vec());
    card.write_port(SD_FNAME_PORT, b'z', HostReply::Done);
    assert_eq!(card.filename(), b"z".to_vec());
    card.write_port(SD_FNAME_PORT, b'w', HostReply::Done);
    assert_eq!(card.filename(), b"zw".to_vec());
}

#[test]
fn name_without_terminator_is_taken_as_it_stands() {
    let mut card = SdCard::new();
    card.write_port(SD_FNAME_PORT, b'a', HostReply::Done);
    card.write_port(SD_FNAME_PORT, b'b', HostReply::Done);
    assert_eq!(card.write_request(SD_CMD_PORT, CMD_OPEN_RW), HostRequest::OpenReadWrite(b"ab".to_vec()));
    card.write_port(SD_CMD_PORT, CMD_OPEN_RW, HostReply::Failed);
    assert_eq!(card.filename(), Vec::<u8>::new());
    card.write_port(SD_FNAME_PORT, b'c', HostReply::Done);
    assert_eq!(card.filename(), b"c".to_vec());
}

#[test]
fn command_clears_an_ended_name() {
    let mut card = SdCard::new();
    card.write_port(SD_FNAME_PORT, b'a', HostReply::Done);
    card.write_port(SD_FNAME_PORT, 0, HostReply::Done);
    card.write_port(SD_CMD_PORT, CMD_OPEN_READ, HostReply::Done);
    assert_eq!(card.filename(), Vec::<u8>::new());
    card.write_port(SD_FNAME_PORT, b'b', HostReply::Done);
    card.write_port(SD_FNAME_PORT, b'c', HostReply::Done);
    assert_eq!(card.filename(), b"bc".to_vec());
}

#[test]
fn close_with_nothing_open() {
    let mut rig = Rig::new();
    rig.command(CMD_CLOSE);
    assert_eq!(rig.status(), 0x01);
    assert_eq!(rig.disk.requests, 0);
    rig.command(CMD_SEEK_START);
    assert_eq!(rig.status(), 0x03);
    rig.command(CMD_CLOSE);
    assert_eq!(rig.status(), 0x01);
}

#[test]
fn close_retires_file_and_directory() {
    let mut rig = Rig::new();
    rig.disk.put("f", b"abc");
    rig.name("f");
    rig.command(CMD_OPEN_READ);
    assert_eq!(rig.card.write_request(SD_CMD_PORT, CMD_CLOSE), HostRequest::Close);
    rig.command(CMD_CLOSE);
    assert_eq!(rig.status(), 0x01);
    assert_eq!(rig.inp(SD_DATA_PORT), 0);
    rig.command(CMD_DIR);
    rig.command(CMD_CLOSE);
    assert_eq!(rig.status(), 0x01);
    assert_eq!(rig.inp(SD_DATA_PORT), 0);
}

#[test]
fn opening_retires_the_previous_session() {
    let mut rig = Rig::new();
    rig.disk.put("one", b"1111");
    rig.disk.put("two", b"2222");
    rig.command(CMD_DIR);
    rig.name("one");
    rig.command(CMD_OPEN_READ);
    assert_eq!(rig.inp(SD_DATA_PORT), b'1');
    rig.name("missing");
    rig.command(CMD_OPEN_READ);
    assert_eq!(rig.status(), 0x03);
    assert_eq!(rig.inp(SD_DATA_PORT), 0);
    rig.name("two");
    rig.command(CMD_OPEN_READ);
    rig.command(CMD_DIR);
    assert_eq!(rig.inp(SD_DATA_PORT), b'o');
}

#[test]
fn append_continues_at_the_end() {
    let mut rig = Rig::new();
    rig.disk.put("log.txt", b"abc");
    rig.name("log.txt");
    rig.command(CMD_OPEN_APPEND);
    assert_eq!(rig.status(), 0x81);
    rig.out(SD_DATA_PORT, b'd');
    rig.out(SD_DATA_PORT, b'e');
    assert_eq!(rig.disk.content("log.txt"), b"abcde".to_vec());
    rig.name("nolog.txt");
    rig.command(CMD_OPEN_APPEND);
    assert_eq!(rig.status(), 0x03);
}

#[test]
fn unknown_command_and_ports_change_nothing() {
    let mut rig = Rig::new();
    rig.disk.put("f", b"abc");
    rig.name("f");
    rig.command(CMD_OPEN_READ);
    rig.command(0x00);
    rig.command(0x0A);
    rig.command(0xFF);
    assert_eq!(rig.status(), 0x81);
    rig.out(0x20, 0x55);
    rig.out(SD_STATUS_PORT, 0x55);
    assert_eq!(rig.inp(0x20), 0xFF);
    assert_eq!(rig.inp(SD_CMD_PORT), 0xFF);
    assert_eq!(rig.inp(SD_FNAME_PORT), 0xFF);
    assert_eq!(rig.inp(SD_DATA_PORT), b'a');
}

#[test]
fn handles_its_ten_ports() {
    let handled: Vec<u8> = (0..=255u8).filter(|p| SdCard::handles_port(*p)).collect();
    assert_eq!(handled, (0x10..=0x19u8).collect::<Vec<u8>>());
}

#[test]
fn debug_flag_is_kept() {
    let mut card = SdCard::new();
    card.set_debug(true);
    assert!(card.debug());
    card.set_debug(false);
    assert!(!card.debug());
}
