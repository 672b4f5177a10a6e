//! A text screen of 80 columns by 24 rows with a cursor.

use vstd::prelude::*;
use crate::text::string_of;

verus! {

/// Columns of the screen.
pub const TERM_COLS: usize = 80;

/// Rows of the screen.
pub const TERM_ROWS: usize = 24;

/// Cells of the screen.
pub const TERM_CELLS: usize = 1920;

/// The screen: its cells row by row, and the cursor.
pub struct TerminalModel {
    pub cells: Seq<char>,
    pub x: int,
    pub y: int,
}

impl TerminalModel {
    /// The screen is whole and the cursor is on it.
    pub open spec fn wf(self) -> bool {
        &&& self.cells.len() == TERM_CELLS
        &&& 0 <= self.x < TERM_COLS
        &&& 0 <= self.y < TERM_ROWS
    }

    /// Row `y` of the screen.
    pub open spec fn row(self, y: int) -> Seq<char> {
        self.cells.subrange(TERM_COLS * y, TERM_COLS * y + TERM_COLS)
    }
}

/// A screen full of spaces.
pub open spec fn blank_cells() -> Seq<char> {
    Seq::new(TERM_CELLS as nat, |i: int| ' ')
}

/// The cleared screen, cursor at the top left.
pub open spec fn blank() -> TerminalModel {
    TerminalModel { cells: blank_cells(), x: 0, y: 0 }
}

/// The cells moved up by one row, the last row blank.
pub open spec fn scrolled(cells: Seq<char>) -> Seq<char> {
    Seq::new(
        TERM_CELLS as nat,
        |i: int|
            if i < TERM_CELLS - TERM_COLS {
                cells[i + TERM_COLS]
            } else {
                ' '
            },
    )
}

/// The screen after the cursor moved down a row: on the last row the
/// screen scrolls instead.
pub open spec fn line_fed(m: TerminalModel) -> TerminalModel {
    if m.y + 1 >= TERM_ROWS {
        TerminalModel { cells: scrolled(m.cells), y: TERM_ROWS - 1, ..m }
    } else {
        TerminalModel { y: m.y + 1, ..m }
    }
}

/// The screen after character `c` was written to it. CR returns to the
/// first column, LF moves down, backspace moves left, form feed clears; a
/// printable character is stored at the cursor, which then moves on and
/// wraps at the end of the row. Escape and the other control characters
/// are dropped.
pub open spec fn put(m: TerminalModel, c: char) -> TerminalModel {
    if c == '\r' {
        TerminalModel { x: 0, ..m }
    } else if c == '\n' {
        line_fed(m)
    } else if c == '\x08' {
        TerminalModel {
            x: if m.x > 0 {
                m.x - 1
            } else {
                m.x
            },
            ..m
        }
    } else if c == '\x0C' {
        blank()
    } else if c == '\x1B' {
        m
    } else if c >= ' ' {
        let cells = m.cells.update(TERM_COLS * m.y + m.x, c);
        if m.x + 1 >= TERM_COLS {
            line_fed(TerminalModel { cells, x: 0, y: m.y })
        } else {
            TerminalModel { cells, x: m.x + 1, y: m.y }
        }
    } else {
        m
    }
}

/// What `str::trim_end` makes of a text: the text without its trailing
/// whitespace.
pub uninterp spec fn trim_end_of(text: Seq<char>) -> Seq<char>;

/// A text that holds nothing but spaces.
pub open spec fn all_spaces(text: Seq<char>) -> bool {
    forall|i: int| 0 <= i < text.len() ==> text[i] == ' '
}

/// `line` is `row` cut behind some column, and does not end in a space.
pub open spec fn cut_clean(line: Seq<char>, row: Seq<char>) -> bool {
    &&& line.len() <= row.len()
    &&& line == row.subrange(0, line.len() as int)
    &&& line.len() > 0 ==> line.last() != ' '
}

/// A row of spaces, cut clean, is the empty line.
pub proof fn lemma_blank_row_is_empty(line: Seq<char>, row: Seq<char>)
    requires
        cut_clean(line, row),
        all_spaces(row),
    ensures
        line.len() == 0,
{
    if line.len() > 0 {
        assert(line.last() == row[line.len() - 1]);
    }
}

/// Every row of a cleared screen holds nothing but spaces.
pub proof fn lemma_blank_rows(y: int)
    requires
        0 <= y < TERM_ROWS,
    ensures
        all_spaces(blank().row(y)),
{
}

/// Number of rows that `get_lines` gives for a wish of `max_lines`.
pub open spec fn rows_shown(max_lines: int) -> int {
    if max_lines < TERM_ROWS {
        max_lines
    } else {
        TERM_ROWS as int
    }
}

/// The last rows of the screen as lines of text without trailing blanks.
pub open spec fn lines_shown(m: TerminalModel, max_lines: int) -> Seq<Seq<char>> {
    Seq::new(
        rows_shown(max_lines) as nat,
        |k: int| trim_end_of(m.row(TERM_ROWS - rows_shown(max_lines) + k)),
    )
}

/// `str::trim_end`: the text without its trailing whitespace. The result
/// is the start of the text up to some point, and, the space being
/// whitespace, it does not end in a space.
#[verifier::external_body]
fn trim_line(text: &str) -> (t: &str)
    ensures
        t@ == trim_end_of(text@),
        t@.len() <= text@.len(),
        t@ == text@.subrange(0, t@.len() as int),
        t@.len() > 0 ==> t@.last() != ' ',
{
    text.trim_end()
}

/// Fills the cells with spaces.
fn clear_cells(cells: &mut Vec<char>)
    requires
        old(cells)@.len() == TERM_CELLS,
    ensures
        final(cells)@ == blank_cells(),
{
    let mut i: usize = 0;
    while i < TERM_CELLS
        invariant
            i <= TERM_CELLS,
            cells@.len() == TERM_CELLS,
            forall|j: int| 0 <= j < i ==> cells@[j] == ' ',
        decreases TERM_CELLS - i,
    {
        cells[i] = ' ';
        i += 1;
    }
    assert(cells@ =~= blank_cells());
}

/// Moves the cells up by one row and blanks the last row.
fn scroll_cells(cells: &mut Vec<char>)
    requires
        old(cells)@.len() == TERM_CELLS,
    ensures
        final(cells)@ == scrolled(old(cells)@),
{
    let mut i: usize = 0;
    while i < TERM_CELLS - TERM_COLS
        invariant
            i <= TERM_CELLS - TERM_COLS,
            cells@.len() == TERM_CELLS,
            forall|j: int| 0 <= j < i ==> cells@[j] == old(cells)@[j + TERM_COLS],
            forall|j: int| i <= j < TERM_CELLS ==> cells@[j] == old(cells)@[j],
        decreases TERM_CELLS - i,
    {
        let c: char = cells[i + TERM_COLS];
        cells[i] = c;
        i += 1;
    }
    while i < TERM_CELLS
        invariant
            TERM_CELLS - TERM_COLS <= i <= TERM_CELLS,
            cells@.len() == TERM_CELLS,
            forall|j: int|
                0 <= j < TERM_CELLS - TERM_COLS ==> cells@[j] == old(cells)@[j + TERM_COLS],
            forall|j: int| TERM_CELLS - TERM_COLS <= j < i ==> cells@[j] == ' ',
        decreases TERM_CELLS - i,
    {
        cells[i] = ' ';
        i += 1;
    }
    assert(cells@ =~= scrolled(old(cells)@));
}

/// The text screen.
pub struct TerminalBuffer {
    buffer: Vec<char>,
    cursor_x: usize,
    cursor_y: usize,
}

impl View for TerminalBuffer {
    type V = TerminalModel;

    closed spec fn view(&self) -> TerminalModel {
        TerminalModel { cells: self.buffer@, x: self.cursor_x as int, y: self.cursor_y as int }
    }
}

impl TerminalBuffer {
    /// A cleared screen.
    pub fn new() -> (t: TerminalBuffer)
        ensures
            t@ == blank(),
            t@.wf(),
    {
        let mut buffer: Vec<char> = Vec::new();
        let mut i: usize = 0;
        while i < TERM_CELLS
            invariant
                i <= TERM_CELLS,
                buffer@.len() == i,
                forall|j: int| 0 <= j < i ==> buffer@[j] == ' ',
            decreases TERM_CELLS - i,
        {
            buffer.push(' ');
            i += 1;
        }
        assert(buffer@ =~= blank_cells());
        TerminalBuffer { buffer, cursor_x: 0, cursor_y: 0 }
    }

    /// Clears the screen and homes the cursor.
    pub fn clear(&mut self)
        requires
            old(self)@.wf(),
        ensures
            final(self)@ == blank(),
            final(self)@.wf(),
    {
        clear_cells(&mut self.buffer);
        self.cursor_x = 0;
        self.cursor_y = 0;
    }

    /// Scrolls the screen up by one row. The cursor stays.
    pub fn scroll(&mut self)
        requires
            old(self)@.wf(),
        ensures
            final(self)@ == (TerminalModel { cells: scrolled(old(self)@.cells), ..old(self)@ }),
            final(self)@.wf(),
    {
        scroll_cells(&mut self.buffer);
    }

    /// Moves the cursor down a row, scrolling on the last one.
    fn line_feed(&mut self)
        requires
            old(self)@.wf(),
        ensures
            final(self)@ == line_fed(old(self)@),
            final(self)@.wf(),
    {
        if self.cursor_y + 1 >= TERM_ROWS {
            scroll_cells(&mut self.buffer);
            self.cursor_y = TERM_ROWS - 1;
        } else {
            self.cursor_y = self.cursor_y + 1;
        }
    }

    /// Writes a character to the screen.
    pub fn putchar(&mut self, c: char)
        requires
            old(self)@.wf(),
        ensures
            final(self)@ == put(old(self)@, c),
            final(self)@.wf(),
    {
        if c == '\r' {
            self.cursor_x = 0;
        } else if c == '\n' {
            self.line_feed();
        } else if c == '\x08' {
            if self.cursor_x > 0 {
                self.cursor_x = self.cursor_x - 1;
            }
        } else if c == '\x0C' {
            self.clear();
        } else if c == '\x1B' {
        } else if c >= ' ' {
            let at: usize = self.cursor_y * TERM_COLS + self.cursor_x;
            self.buffer[at] = c;
            if self.cursor_x + 1 >= TERM_COLS {
                self.cursor_x = 0;
                self.line_feed();
            } else {
                self.cursor_x = self.cursor_x + 1;
            }
        }
    }

    /// The cursor: column, then row.
    pub fn get_cursor(&self) -> (at: (usize, usize))
        ensures
            at.0 == self@.x,
            at.1 == self@.y,
    {
        (self.cursor_x, self.cursor_y)
    }

    /// The cells of row `y`.
    fn row_cells(&self, y: usize) -> (row: Vec<char>)
        requires
            self@.wf(),
            y < TERM_ROWS,
        ensures
            row@ == self@.row(y as int),
    {
        let mut row: Vec<char> = Vec::new();
        let mut x: usize = 0;
        while x < TERM_COLS
            invariant
                x <= TERM_COLS,
                y < TERM_ROWS,
                self.buffer@.len() == TERM_CELLS,
                row@.len() == x,
                forall|j: int| 0 <= j < x ==> row@[j] == self.buffer@[TERM_COLS * y + j],
            decreases TERM_COLS - x,
        {
            row.push(self.buffer[y * TERM_COLS + x]);
            x += 1;
        }
        assert(row@ =~= self@.row(y as int));
        row
    }

    /// The last `max_lines` rows of the screen, or all 24 where that is
    /// more, from top to bottom, each without its trailing whitespace.
    pub fn get_lines(&self, max_lines: usize) -> (lines: Vec<String>)
        requires
            self@.wf(),
        ensures
            lines@.len() == rows_shown(max_lines as int),
            forall|k: int|
                0 <= k < lines@.len() ==> #[trigger] lines@[k]@ == lines_shown(
                    self@,
                    max_lines as int,
                )[k],
            forall|k: int|
                0 <= k < lines@.len() ==> cut_clean(
                    #[trigger] lines@[k]@,
                    self@.row(TERM_ROWS - rows_shown(max_lines as int) + k),
                ),
            forall|k: int|
                0 <= k < lines@.len() && all_spaces(
                    self@.row(TERM_ROWS - rows_shown(max_lines as int) + k),
                ) ==> (#[trigger] lines@[k]@).len() == 0,
    {
        let start: usize = if TERM_ROWS > max_lines {
            TERM_ROWS - max_lines
        } else {
            0
        };
        let mut lines: Vec<String> = Vec::new();
        let mut y: usize = start;
        while y < TERM_ROWS
            invariant
                self@.wf(),
                start <= y <= TERM_ROWS,
                start == TERM_ROWS - rows_shown(max_lines as int),
                lines@.len() == y - start,
                forall|k: int|
                    0 <= k < lines@.len() ==> #[trigger] lines@[k]@ == trim_end_of(
                        self@.row(start + k),
                    ),
                forall|k: int|
                    0 <= k < lines@.len() ==> cut_clean(#[trigger] lines@[k]@, self@.row(start + k)),
            decreases TERM_ROWS - y,
        {
            let row: Vec<char> = self.row_cells(y);
            let text: String = string_of(&row);
            let line: String = trim_line(text.as_str()).to_owned();
            lines.push(line);
            y += 1;
        }
        proof {
            assert forall|k: int|
                0 <= k < lines@.len() && all_spaces(self@.row(start + k)) implies (
            #[trigger] lines@[k]@).len() == 0 by {
                lemma_blank_row_is_empty(lines@[k]@, self@.row(start + k));
            }
        }
        lines
    }
}

} // verus!
