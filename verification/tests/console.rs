use retroshield::console::{
    decide_interrupt, load_rom, memory_with_rom, push_return_address, BusAction, Console,
    InterruptAction,
};
use rz80::Memory;

#[test]
fn console_reads_both_chips() {
    let mut c = Console::new();
    assert_eq!(c.cpu_inp(0x80, None), 0x02);
    assert_eq!(c.cpu_inp(0x80, Some(b'a')), 0x03);
    assert_eq!(c.cpu_inp(0x01, None), 0x85);
    assert_eq!(c.cpu_inp(0x01, Some(b'b')), 0x87);
    assert_eq!(c.cpu_inp(0x81, None), b'a' as i32);
    assert_eq!(c.cpu_inp(0x00, None), b'B' as i32);
    assert_eq!(c.cpu_inp(0x81, Some(0)), 0);
    assert_eq!(c.cpu_inp(0x00, Some(b'z')), b'Z' as i32);
    assert_eq!(c.cpu_inp(0x55, Some(b'q')), 0xFF);
    assert_eq!(c.cpu_inp(0x80, None), 0x02);
}

#[test]
fn console_writes_print_or_set_the_dump() {
    let mut c = Console::new();
    assert_eq!(c.cpu_outp(0x81, b'A' as i32), BusAction::Print(b'A'));
    assert_eq!(c.cpu_outp(0x00, b'B' as i32), BusAction::Print(b'B'));
    assert_eq!(c.cpu_outp(0x80, 1), BusAction::Idle);
    assert_eq!(c.cpu_outp(0x01, 1), BusAction::Idle);
    assert_eq!(c.cpu_outp(0x82, 0x34), BusAction::Idle);
    assert_eq!(c.cpu_outp(0x86, 0), BusAction::Dump);
    assert_eq!(c.cpu_outp(0x1086, 7), BusAction::Dump);
    assert_eq!(c.cpu_outp(0x87, 7), BusAction::Idle);
}

#[test]
fn memory_dump_covers_the_range() {
    let mut c = Console::new();
    let mut mem = Memory::new_64k();
    for i in 0..0x10000 {
        mem.w8(i, (i % 251) as i32);
    }
    assert_eq!(c.do_memory_dump(&mem), None);
    c.cpu_outp(0x82, 0x34);
    c.cpu_outp(0x83, 0x12);
    assert_eq!(c.do_memory_dump(&mem), None);
    c.cpu_outp(0x84, 0x03);
    let want: Vec<u8> = (0x1234..0x1237u32).map(|a| (a % 251) as u8).collect();
    assert_eq!(c.do_memory_dump(&mem), Some(want));
    c.cpu_outp(0x85, 0x01);
    assert_eq!(c.do_memory_dump(&mem).unwrap().len(), 0x103);
}

#[test]
fn memory_dump_stops_at_the_top_of_memory() {
    let mut c = Console::new();
    let mut mem = Memory::new_64k();
    mem.w8(0xFFFF, 0x77);
    mem.w8(0x0000, 0x11);
    c.cpu_outp(0x82, 0xF0);
    c.cpu_outp(0x83, 0xFF);
    c.cpu_outp(0x84, 0xFF);
    c.cpu_outp(0x85, 0xFF);
    let bytes = c.do_memory_dump(&mem).unwrap();
    assert_eq!(bytes.len(), 16);
    assert_eq!(bytes[15], 0x77);
    assert_eq!(bytes[0], 0);
}

#[test]
fn rom_is_loaded_from_address_zero() {
    let mut mem = Memory::new_64k();
    let image: Vec<u8> = (0..300u32).map(|i| (i * 7 % 256) as u8).collect();
    assert_eq!(load_rom(&mut mem, &image), 300);
    for i in 0..300 {
        assert_eq!(mem.r8(i), (i * 7 % 256) as i32);
    }
    assert_eq!(mem.r8(300), 0);
}

#[test]
fn oversized_rom_is_cut_at_the_top_of_memory() {
    let mut mem = Memory::new_64k();
    let mut image = vec![0x22u8; 0x10000 + 10];
    image[0] = 0x01;
    image[0x10000] = 0x99;
    assert_eq!(load_rom(&mut mem, &image), 0x10000 + 10);
    assert_eq!(mem.r8(0), 0x01);
    assert_eq!(mem.r8(0xFFFF), 0x22);
}

#[test]
fn fresh_memory_holds_the_rom_and_zeros() {
    let mem = memory_with_rom(&[0xC3, 0x00, 0x01]);
    assert_eq!(mem.r8(0), 0xC3);
    assert_eq!(mem.r8(1), 0x00);
    assert_eq!(mem.r8(2), 0x01);
    assert_eq!(mem.r8(3), 0);
    assert_eq!(mem.r8(0xFFFF), 0);
    let mut mem = mem;
    mem.w8(0x8000, 0x5A);
    assert_eq!(mem.r8(0x8000), 0x5A);
}

#[test]
fn return_address_is_pushed_low_byte_first() {
    let mut mem = Memory::new_64k();
    let sp = push_return_address(&mut mem, 0x8000, 0x1234);
    assert_eq!(sp, 0x7FFE);
    assert_eq!(mem.r8(0x7FFE), 0x34);
    assert_eq!(mem.r8(0x7FFF), 0x12);
    let sp = push_return_address(&mut mem, 0x0001, 0xABCD);
    assert_eq!(sp, 0xFFFF);
    assert_eq!(mem.r8(0xFFFF), 0xCD);
    assert_eq!(mem.r8(0x0000), 0xAB);
    let sp = push_return_address(&mut mem, 0x0000, 0x0102);
    assert_eq!(sp, 0xFFFE);
    assert_eq!(mem.r8(0xFFFE), 0x02);
    assert_eq!(mem.r8(0xFFFF), 0x01);
}

#[test]
fn interrupt_decision_follows_the_mode() {
    assert_eq!(decide_interrupt(false, true, 1), InterruptAction::Idle);
    assert_eq!(decide_interrupt(true, false, 1), InterruptAction::Idle);
    assert_eq!(decide_interrupt(true, true, 1), InterruptAction::Restart);
    assert_eq!(decide_interrupt(true, true, 2), InterruptAction::Vectored);
    assert_eq!(decide_interrupt(true, true, 0), InterruptAction::Skipped);
}

#[test]
fn console_rom_size_and_debug() {
    let mut c = Console::new();
    assert_eq!(c.rom_size(), 0x2000);
    c.configure_rom("/roms/mint.bin");
    assert_eq!(c.rom_size(), 0x0800);
    c.configure_rom("/roms/basic.bin");
    assert_eq!(c.rom_size(), 0x2000);
    assert!(!c.debug());
    c.set_debug(true);
    assert!(c.debug());
}

#[test]
fn only_serial_ports_poll_the_keyboard() {
    let polled: Vec<i32> = (0..256).filter(|p| Console::polls_keyboard(*p)).collect();
    assert_eq!(polled, vec![0x00, 0x01, 0x80, 0x81]);
    assert!(Console::polls_keyboard(0x1281));
    assert!(!Console::polls_keyboard(0x8102));
}
