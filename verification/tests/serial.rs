use retroshield::serial::{to_upper, Intel8251, Mc6850};

#[test]
fn acia_status_tells_of_waiting_input() {
    let mut chip = Mc6850::new();
    assert_eq!(chip.read_status(None), 0x02);
    assert_eq!(chip.read_status(Some(b'x')), 0x03);
    assert_eq!(chip.read_status(None), 0x03);
    assert_eq!(chip.read_data(None), b'x');
    assert_eq!(chip.read_status(None), 0x02);
}

#[test]
fn acia_hands_bytes_out_in_order() {
    let mut chip = Mc6850::new();
    chip.read_status(Some(b'a'));
    chip.read_status(Some(b'b'));
    assert_eq!(chip.read_data(Some(b'c')), b'a');
    assert_eq!(chip.read_data(None), b'b');
    assert_eq!(chip.read_data(None), b'c');
    assert_eq!(chip.read_data(None), 0);
    assert_eq!(chip.read_data(Some(b'z')), b'z');
}

#[test]
fn zero_byte_is_not_received() {
    let mut chip = Mc6850::new();
    assert_eq!(chip.read_status(Some(0)), 0x02);
    assert_eq!(chip.read_data(Some(0)), 0);
    let mut usart = Intel8251::new();
    assert_eq!(usart.read_status(Some(0)), 0x85);
}

#[test]
fn acia_control_write_keeps_the_queue() {
    let mut chip = Mc6850::new();
    chip.read_status(Some(b'q'));
    chip.write_control(0x15);
    assert_eq!(chip.read_status(None), 0x03);
    assert_eq!(chip.read_data(None), b'q');
}

#[test]
fn usart_status_tells_of_waiting_input() {
    let mut chip = Intel8251::new();
    assert_eq!(chip.read_status(None), 0x85);
    assert_eq!(chip.read_status(Some(b'x')), 0x87);
    assert_eq!(chip.read_data(None), b'X');
    assert_eq!(chip.read_status(None), 0x85);
}

#[test]
fn usart_turns_letters_into_capitals() {
    let mut chip = Intel8251::new();
    assert_eq!(chip.read_data(Some(b'a')), b'A');
    assert_eq!(chip.read_data(Some(b'z')), b'Z');
    assert_eq!(chip.read_data(Some(b'M')), b'M');
    assert_eq!(chip.read_data(Some(b'`')), b'`');
    assert_eq!(chip.read_data(Some(b'{')), b'{');
    assert_eq!(chip.read_data(Some(b'5')), b'5');
    assert_eq!(chip.read_data(None), 0);
    chip.write_control(0x37);
    assert_eq!(chip.read_data(Some(0xE9)), 0xE9);
}

#[test]
fn to_upper_touches_only_lower_case() {
    for c in 0..=255u8 {
        let want = if c.is_ascii_lowercase() { c - 32 } else { c };
        assert_eq!(to_upper(c), want);
    }
}
