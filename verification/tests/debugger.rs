use retroshield::debugger::{
    ascii_text, control_code, cursor_line_in_view, faster, flags_text, hex_text, read_bytes,
    slower, split_at_cursor, stack_entry,
};
use rz80::Memory;

#[test]
fn flags_are_letters_or_dashes() {
    assert_eq!(flags_text(0x00), "--------");
    assert_eq!(flags_text(0xFF), "SZ-H-PNC");
    assert_eq!(flags_text(0x28), "--------");
    assert_eq!(flags_text(0x80), "S-------");
    assert_eq!(flags_text(0x41), "-Z-----C");
    assert_eq!(flags_text(0x16), "---H-PN-");
}

#[test]
fn memory_rows_wrap_at_the_top() {
    let mut mem = Memory::new_64k();
    mem.w8(0xFFFE, 0x41);
    mem.w8(0xFFFF, 0x7F);
    mem.w8(0x0000, 0x20);
    mem.w8(0x0001, 0x1F);
    let row = read_bytes(&mem, 0xFFFE, 4);
    assert_eq!(row, vec![0x41, 0x7F, 0x20, 0x1F]);
    assert_eq!(hex_text(&row), "41 7F 20 1F ");
    assert_eq!(ascii_text(&row), "A. .");
    assert_eq!(read_bytes(&mem, 0x1000, 0), Vec::<u8>::new());
    assert_eq!(hex_text(&Vec::new()), "");
    assert_eq!(read_bytes(&mem, 0x1000, 16).len(), 16);
}

#[test]
fn text_column_shows_printable_ascii_only() {
    let all: Vec<u8> = (0..=255u8).collect();
    let text = ascii_text(&all);
    let chars: Vec<char> = text.chars().collect();
    assert_eq!(chars.len(), 256);
    for b in 0..=255u8 {
        let want = if (0x20..0x7F).contains(&b) { b as char } else { '.' };
        assert_eq!(chars[b as usize], want);
    }
}

#[test]
fn stack_entries_are_words() {
    let mut mem = Memory::new_64k();
    mem.w8(0x8000, 0x34);
    mem.w8(0x8001, 0x12);
    mem.w8(0x8002, 0xCD);
    mem.w8(0x8003, 0xAB);
    assert_eq!(stack_entry(&mem, 0x8000, 0), (0x8000, 0x1234));
    assert_eq!(stack_entry(&mem, 0x8000, 1), (0x8002, 0xABCD));
    mem.w8(0xFFFF, 0x01);
    mem.w8(0x0000, 0x02);
    assert_eq!(stack_entry(&mem, 0xFFFD, 1), (0xFFFF, 0x0201));
    assert_eq!(stack_entry(&mem, 0xFFFE, 1), (0x0000, 0x0002));
    assert_eq!(stack_entry(&mem, 0x8000, 0x8001), (0x8002, 0xABCD));
}

#[test]
fn cursor_row_follows_the_pane() {
    assert_eq!(cursor_line_in_view(0, 24), Some(0));
    assert_eq!(cursor_line_in_view(23, 24), Some(23));
    assert_eq!(cursor_line_in_view(23, 10), Some(9));
    assert_eq!(cursor_line_in_view(14, 10), Some(0));
    assert_eq!(cursor_line_in_view(13, 10), None);
    assert_eq!(cursor_line_in_view(5, 40), Some(5));
    assert_eq!(cursor_line_in_view(5, 0), None);
}

#[test]
fn line_is_cut_at_the_cursor() {
    assert_eq!(split_at_cursor("HELLO", 0), ("".to_string(), 'H', "ELLO".to_string()));
    assert_eq!(split_at_cursor("HELLO", 2), ("HE".to_string(), 'L', "LO".to_string()));
    assert_eq!(split_at_cursor("HELLO", 4), ("HELL".to_string(), 'O', "".to_string()));
    assert_eq!(split_at_cursor("HELLO", 5), ("HELLO".to_string(), ' ', "".to_string()));
    assert_eq!(split_at_cursor("HELLO", 9), ("HELLO".to_string(), ' ', "".to_string()));
    assert_eq!(split_at_cursor("", 0), ("".to_string(), ' ', "".to_string()));
    assert_eq!(split_at_cursor("\u{E9}t\u{E9}", 1), ("\u{E9}".to_string(), 't', "\u{E9}".to_string()));
}

#[test]
fn control_codes_and_speed() {
    assert_eq!(control_code(b'c'), 0x03);
    assert_eq!(control_code(b'C'), 0x03);
    assert_eq!(control_code(b'['), 0x1B);
    assert_eq!(faster(50_000), 100_000);
    assert_eq!(faster(500_000), 1_000_000);
    assert_eq!(faster(499_999), 999_998);
    assert_eq!(faster(800_000), 1_000_000);
    assert_eq!(faster(u32::MAX), 1_000_000);
    assert_eq!(slower(50_000), 25_000);
    assert_eq!(slower(2001), 1000);
    assert_eq!(slower(2002), 1001);
    assert_eq!(slower(1000), 1000);
    assert_eq!(slower(0), 1000);
}
