use retroshield::shield::{find_basename, is_mint_image, RetroShield};

#[test]
fn board_starts_empty() {
    let mut b = RetroShield::new();
    assert_eq!(b.rom_size(), 0x2000);
    assert!(!b.input_available());
    assert!(!b.uses_8251());
    assert!(!b.should_interrupt());
    assert_eq!(b.pending_output(), 0);
    assert_eq!(b.get_input(), None);
    assert_eq!(b.get_cursor(), (0, 0));
}

#[test]
fn acia_ports_read_the_keyboard() {
    let mut b = RetroShield::new();
    assert_eq!(b.cpu_inp(0x80), 0x02);
    b.send_key(b'a');
    b.send_key(b'b');
    assert_eq!(b.cpu_inp(0x80), 0x03);
    assert_eq!(b.cpu_inp(0x81), b'a' as i32);
    assert_eq!(b.cpu_inp(0x81), b'b' as i32);
    assert_eq!(b.cpu_inp(0x81), 0);
    assert_eq!(b.cpu_inp(0x80), 0x02);
    assert!(!b.uses_8251());
}

#[test]
fn usart_ports_read_the_keyboard_in_capitals() {
    let mut b = RetroShield::new();
    assert_eq!(b.cpu_inp(0x01), 0x85);
    assert!(b.uses_8251());
    b.send_key(b'q');
    assert_eq!(b.cpu_inp(0x01), 0x87);
    assert_eq!(b.cpu_inp(0x00), b'Q' as i32);
    assert_eq!(b.cpu_inp(0x00), 0);
}

#[test]
fn only_the_low_byte_of_the_port_counts() {
    let mut b = RetroShield::new();
    b.send_key(b'k');
    assert_eq!(b.cpu_inp(0x1280), 0x03);
    assert_eq!(b.cpu_inp(0x42), 0xFF);
    assert_eq!(b.cpu_inp(0xFF81), b'k' as i32);
    b.cpu_outp(0x3381, 0x141);
    assert_eq!(b.pending_output(), 1);
    b.flush_output(10);
    assert_eq!(b.get_terminal_lines(24)[0], "A");
}

#[test]
fn output_is_queued_and_flushed_in_order() {
    let mut b = RetroShield::new();
    for c in b"HELLO WORLD" {
        b.cpu_outp(0x81, *c as i32);
    }
    assert_eq!(b.pending_output(), 11);
    assert_eq!(b.get_terminal_lines(24)[0], "");
    assert_eq!(b.flush_output(5), 5);
    assert_eq!(b.pending_output(), 6);
    assert_eq!(b.get_terminal_lines(24)[0], "HELLO");
    assert_eq!(b.get_cursor(), (5, 0));
    assert_eq!(b.flush_output(100), 6);
    assert_eq!(b.get_terminal_lines(1), vec!["".to_string()]);
    assert_eq!(b.get_terminal_lines(24)[0], "HELLO WORLD");
    assert_eq!(b.flush_output(100), 0);
    assert_eq!(b.flush_output(0), 0);
}

#[test]
fn usart_writes_mark_the_chip_in_use() {
    let mut b = RetroShield::new();
    b.cpu_outp(0x81, b'x' as i32);
    assert!(!b.uses_8251());
    b.cpu_outp(0x01, 0x37);
    assert!(b.uses_8251());
    assert_eq!(b.pending_output(), 1);
    let mut c = RetroShield::new();
    c.cpu_outp(0x00, b'y' as i32);
    assert!(c.uses_8251());
    assert_eq!(c.pending_output(), 1);
    c.cpu_outp(0x80, 3);
    c.cpu_outp(0x99, 3);
    assert_eq!(c.pending_output(), 1);
}

#[test]
fn interrupt_is_due_once_per_key() {
    let mut b = RetroShield::new();
    b.send_key(b'a');
    assert!(!b.should_interrupt());
    b.cpu_inp(0x01);
    assert!(b.should_interrupt());
    b.mark_interrupt_sent();
    assert!(!b.should_interrupt());
    b.send_key(b'b');
    assert!(b.should_interrupt());
    b.mark_interrupt_sent();
    assert_eq!(b.get_input(), Some(b'a'));
    assert!(b.should_interrupt());
    assert_eq!(b.get_input(), Some(b'b'));
    assert!(!b.should_interrupt());
    b.mark_interrupt_sent();
    assert_eq!(b.get_input(), None);
    b.send_key(b'c');
    assert!(b.should_interrupt());
}

#[test]
fn rom_size_follows_the_file_name() {
    let mut b = RetroShield::new();
    b.configure_rom("roms/mint.z80");
    assert_eq!(b.rom_size(), 0x0800);
    b.configure_rom("mint/basic.bin");
    assert_eq!(b.rom_size(), 0x2000);
    b.configure_rom("my-mint-v2.bin");
    assert_eq!(b.rom_size(), 0x0800);
    b.configure_rom("MINT.bin");
    assert_eq!(b.rom_size(), 0x2000);
    b.configure_rom("a/b/min");
    assert_eq!(b.rom_size(), 0x2000);
    b.configure_rom("/tmp/x/amint");
    assert_eq!(b.rom_size(), 0x0800);
    b.configure_rom("");
    assert_eq!(b.rom_size(), 0x2000);
    b.configure_rom("mint/");
    assert_eq!(b.rom_size(), 0x2000);
}

#[test]
fn basename_starts_behind_the_last_slash() {
    assert_eq!(find_basename(b"a/b/c.bin"), 4);
    assert_eq!(find_basename(b"c.bin"), 0);
    assert_eq!(find_basename(b"dir/"), 4);
    assert_eq!(find_basename(b""), 0);
    assert!(is_mint_image(b"mint"));
    assert!(!is_mint_image(b"min"));
    assert!(!is_mint_image(b"mi/nt"));
}

#[test]
fn clear_terminal_blanks_the_screen() {
    let mut b = RetroShield::new();
    b.queue_output(b'Z');
    b.flush_output(1);
    b.clear_terminal();
    assert_eq!(b.get_cursor(), (0, 0));
    assert_eq!(b.get_terminal_lines(24)[0], "");
}
