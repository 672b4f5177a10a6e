use retroshield::terminal::{TerminalBuffer, TERM_COLS, TERM_ROWS};

fn type_text(t: &mut TerminalBuffer, text: &str) {
    for c in text.chars() {
        t.putchar(c);
    }
}

#[test]
fn new_screen_is_blank() {
    let t = TerminalBuffer::new();
    assert_eq!(t.get_cursor(), (0, 0));
    let lines = t.get_lines(TERM_ROWS);
    assert_eq!(lines.len(), 24);
    assert!(lines.iter().all(|l| l.is_empty()));
}

#[test]
fn printable_characters_advance_the_cursor() {
    let mut t = TerminalBuffer::new();
    type_text(&mut t, "HELLO");
    assert_eq!(t.get_cursor(), (5, 0));
    assert_eq!(t.get_lines(24)[0], "HELLO");
}

#[test]
fn carriage_return_and_line_feed() {
    let mut t = TerminalBuffer::new();
    type_text(&mut t, "AB\r\nCD\nE\rF");
    let lines = t.get_lines(24);
    assert_eq!(lines[0], "AB");
    assert_eq!(lines[1], "CD");
    assert_eq!(lines[2], "F E");
    assert_eq!(t.get_cursor(), (1, 2));
}

#[test]
fn backspace_moves_left_and_stops_at_the_margin() {
    let mut t = TerminalBuffer::new();
    type_text(&mut t, "AB\x08");
    assert_eq!(t.get_cursor(), (1, 0));
    type_text(&mut t, "\x08\x08\x08");
    assert_eq!(t.get_cursor(), (0, 0));
    type_text(&mut t, "X");
    assert_eq!(t.get_lines(24)[0], "XB");
}

#[test]
fn form_feed_clears_the_screen() {
    let mut t = TerminalBuffer::new();
    type_text(&mut t, "one\r\ntwo\x0C");
    assert_eq!(t.get_cursor(), (0, 0));
    assert!(t.get_lines(24).iter().all(|l| l.is_empty()));
}

#[test]
fn escape_and_control_characters_are_dropped() {
    let mut t = TerminalBuffer::new();
    type_text(&mut t, "A\x1B\x07\x00\x1FB");
    assert_eq!(t.get_cursor(), (2, 0));
    assert_eq!(t.get_lines(24)[0], "AB");
}

#[test]
fn line_wraps_after_the_last_column() {
    let mut t = TerminalBuffer::new();
    for _ in 0..TERM_COLS - 1 {
        t.putchar('x');
    }
    assert_eq!(t.get_cursor(), (79, 0));
    t.putchar('y');
    assert_eq!(t.get_cursor(), (0, 1));
    t.putchar('z');
    let lines = t.get_lines(24);
    assert_eq!(lines[0].len(), 80);
    assert!(lines[0].ends_with("xy"));
    assert_eq!(lines[1], "z");
}

#[test]
fn screen_scrolls_at_the_bottom() {
    let mut t = TerminalBuffer::new();
    for i in 0..24 {
        type_text(&mut t, &format!("line{}", i));
        if i < 23 {
            type_text(&mut t, "\r\n");
        }
    }
    assert_eq!(t.get_cursor(), (6, 23));
    assert_eq!(t.get_lines(24)[0], "line0");
    type_text(&mut t, "\r\n");
    assert_eq!(t.get_cursor(), (0, 23));
    let lines = t.get_lines(24);
    assert_eq!(lines[0], "line1");
    assert_eq!(lines[22], "line23");
    assert_eq!(lines[23], "");
}

#[test]
fn wrap_on_the_last_row_scrolls() {
    let mut t = TerminalBuffer::new();
    for _ in 0..23 {
        t.putchar('\n');
    }
    type_text(&mut t, "top");
    t.putchar('\r');
    for _ in 0..80 {
        t.putchar('w');
    }
    assert_eq!(t.get_cursor(), (0, 23));
    let lines = t.get_lines(2);
    assert_eq!(lines[0], "w".repeat(80));
    assert_eq!(lines[1], "");
}

#[test]
fn scroll_keeps_the_cursor() {
    let mut t = TerminalBuffer::new();
    type_text(&mut t, "first\r\nsecond");
    t.scroll();
    assert_eq!(t.get_cursor(), (6, 1));
    let lines = t.get_lines(24);
    assert_eq!(lines[0], "second");
    assert_eq!(lines[1], "");
}

#[test]
fn clear_homes_the_cursor() {
    let mut t = TerminalBuffer::new();
    type_text(&mut t, "abc\r\ndef");
    t.clear();
    assert_eq!(t.get_cursor(), (0, 0));
    assert!(t.get_lines(24).iter().all(|l| l.is_empty()));
}

#[test]
fn get_lines_gives_the_last_rows() {
    let mut t = TerminalBuffer::new();
    for i in 0..24 {
        type_text(&mut t, &format!("r{}", i));
        if i < 23 {
            type_text(&mut t, "\r\n");
        }
    }
    assert_eq!(t.get_lines(0).len(), 0);
    assert_eq!(t.get_lines(1), vec!["r23".to_string()]);
    assert_eq!(t.get_lines(3), vec!["r21".to_string(), "r22".to_string(), "r23".to_string()]);
    assert_eq!(t.get_lines(24).len(), 24);
    assert_eq!(t.get_lines(100).len(), 24);
    assert_eq!(t.get_lines(100)[0], "r0");
}

#[test]
fn lines_lose_trailing_whitespace_only() {
    let mut t = TerminalBuffer::new();
    type_text(&mut t, "  a b  ");
    assert_eq!(t.get_lines(24)[0], "  a b");
    type_text(&mut t, "\r\nend\u{A0}\u{2003}");
    assert_eq!(t.get_lines(24)[1], "end");
    type_text(&mut t, "\r\n\u{E9}t\u{E9}");
    assert_eq!(t.get_lines(24)[2], "\u{E9}t\u{E9}");
}

#[test]
fn blank_rows_come_out_empty() {
    let mut t = TerminalBuffer::new();
    type_text(&mut t, "    \r\n  x  \r\n");
    let lines = t.get_lines(24);
    assert_eq!(lines[0], "");
    assert_eq!(lines[1], "  x");
    assert_eq!(lines[2], "");
    assert!(lines.iter().all(|l| !l.ends_with(' ')));
}
