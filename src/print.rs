//! The text-mode screen writer that diagnostics are printed through.
//!
//! The screen is a grid of `BUFFER_HEIGHT` rows of `BUFFER_WIDTH` cells.
//! Text is always written on the bottom row; a newline, or a byte that would
//! run past the end of the row, scrolls every row up by one and starts a blank
//! bottom row. Bytes outside printable ASCII are shown as a placeholder glyph.

use vstd::prelude::*;
use vstd::string::StringSliceAdditionalSpecFns;

verus! {

/// Number of rows of the screen.
pub const BUFFER_HEIGHT: usize = 25;

/// Number of cells in a row.
pub const BUFFER_WIDTH: usize = 80;

/// Number of cells of the screen.
pub const BUFFER_CELLS: usize = 2000;

/// Index of the first cell of the bottom row.
pub const LAST_ROW_START: usize = 1920;

/// Glyph shown for a byte that is not printable ASCII.
pub const PLACEHOLDER: u8 = 0xfe;

/// Text-mode colors.
#[derive(Debug, Clone, Copy, PartialEq, Eq, Structural)]
pub enum Color {
    Black,
    Blue,
    Green,
    Cyan,
    Red,
    Magenta,
    Brown,
    LightGray,
    DarkGray,
    LightBlue,
    LightGreen,
    LightCyan,
    LightRed,
    Pink,
    Yellow,
    White,
}

impl Color {
    pub open spec fn spec_value(&self) -> u8 {
        match self {
            Color::Black => 0,
            Color::Blue => 1,
            Color::Green => 2,
            Color::Cyan => 3,
            Color::Red => 4,
            Color::Magenta => 5,
            Color::Brown => 6,
            Color::LightGray => 7,
            Color::DarkGray => 8,
            Color::LightBlue => 9,
            Color::LightGreen => 10,
            Color::LightCyan => 11,
            Color::LightRed => 12,
            Color::Pink => 13,
            Color::Yellow => 14,
            Color::White => 15,
        }
    }

    /// The 4-bit color number.
    pub fn value(&self) -> (r: u8)
        ensures
            r == self.spec_value(),
            r < 16,
    {
        match self {
            Color::Black => 0,
            Color::Blue => 1,
            Color::Green => 2,
            Color::Cyan => 3,
            Color::Red => 4,
            Color::Magenta => 5,
            Color::Brown => 6,
            Color::LightGray => 7,
            Color::DarkGray => 8,
            Color::LightBlue => 9,
            Color::LightGreen => 10,
            Color::LightCyan => 11,
            Color::LightRed => 12,
            Color::Pink => 13,
            Color::Yellow => 14,
            Color::White => 15,
        }
    }
}

/// A foreground and background color in one byte: background in the high
/// nibble, foreground in the low one.
#[derive(Debug, Clone, Copy, PartialEq, Eq, Structural)]
pub struct ColorCode(pub u8);

impl ColorCode {
    /// Packs a foreground and a background color.
    pub fn new(foreground: Color, background: Color) -> (r: ColorCode)
        ensures
            r.0 == background.spec_value() * 16 + foreground.spec_value(),
    {
        let f = foreground.value();
        let b = background.value();
        ColorCode(b * 16 + f)
    }
}

/// One cell of the screen: a character and its colors.
#[derive(Debug, Clone, Copy, PartialEq, Eq, Structural)]
pub struct ScreenChar {
    pub ascii_character: u8,
    pub color_code: ColorCode,
}

/// What a writer shows: the column of the next byte on the bottom row, the
/// color it writes in, and the cells row by row.
pub struct Screen {
    pub column: nat,
    pub color: ColorCode,
    pub cells: Seq<ScreenChar>,
}

/// A blank cell in the given colors.
pub open spec fn blank_cell(color: ColorCode) -> ScreenChar {
    ScreenChar { ascii_character: 0x20, color_code: color }
}

/// The screen after a newline: every row moved up by one, a blank bottom row,
/// and the column back at the start.
pub open spec fn scrolled(s: Screen) -> Screen {
    Screen {
        column: 0,
        color: s.color,
        cells: Seq::new(
            BUFFER_CELLS as nat,
            |i: int|
                if i < LAST_ROW_START {
                    s.cells[i + BUFFER_WIDTH]
                } else {
                    blank_cell(s.color)
                },
        ),
    }
}

/// The screen after one byte: a newline scrolls; any other byte goes to the
/// next cell of the bottom row, scrolling first when the row is full.
pub open spec fn put_byte(s: Screen, b: u8) -> Screen {
    if b == 0x0a {
        scrolled(s)
    } else {
        let t = if s.column >= BUFFER_WIDTH {
            scrolled(s)
        } else {
            s
        };
        Screen {
            column: t.column + 1,
            color: t.color,
            cells: t.cells.update(
                LAST_ROW_START + t.column,
                ScreenChar { ascii_character: b, color_code: t.color },
            ),
        }
    }
}

/// The byte shown for `b`: printable ASCII and newline as they are, anything
/// else as the placeholder glyph.
pub open spec fn shown(b: u8) -> u8 {
    if (0x20 <= b && b <= 0x7e) || b == 0x0a {
        b
    } else {
        PLACEHOLDER
    }
}

/// The screen after writing `text` byte by byte.
pub open spec fn put_text(s: Screen, text: Seq<u8>) -> Screen
    decreases text.len(),
{
    if text.len() == 0 {
        s
    } else {
        put_byte(put_text(s, text.drop_last()), shown(text.last()))
    }
}

/// Writing two texts one after the other is writing their concatenation.
pub proof fn lemma_put_text_append(s: Screen, a: Seq<u8>, b: Seq<u8>)
    ensures
        put_text(s, a + b) == put_text(put_text(s, a), b),
    decreases b.len(),
{
    if b.len() == 0 {
        assert(a + b =~= a);
    } else {
        assert((a + b).drop_last() =~= a + b.drop_last());
        lemma_put_text_append(s, a, b.drop_last());
    }
}

/// A writer onto a text-mode screen.
pub struct Writer {
    column_position: usize,
    color_code: ColorCode,
    buffer: Vec<ScreenChar>,
}

impl View for Writer {
    type V = Screen;

    closed spec fn view(&self) -> Screen {
        Screen {
            column: self.column_position as nat,
            color: self.color_code,
            cells: self.buffer@,
        }
    }
}

impl Writer {
    /// The writer's fields are consistent: a full screen of cells, and a
    /// column within the row.
    pub closed spec fn wf(&self) -> bool {
        &&& self.buffer@.len() == BUFFER_CELLS
        &&& self.column_position <= BUFFER_WIDTH
    }

    /// Well-formedness is a property of what the writer shows: a full screen
    /// of cells and a column within the row.
    pub proof fn lemma_wf(&self)
        ensures
            self.wf() == (self@.cells.len() == BUFFER_CELLS && self@.column <= BUFFER_WIDTH),
    {
    }

    /// A writer on a blank screen, writing from the start of the bottom row.
    pub fn new(color_code: ColorCode) -> (r: Writer)
        ensures
            r.wf(),
            r@ == (Screen {
                column: 0,
                color: color_code,
                cells: Seq::new(BUFFER_CELLS as nat, |i: int| blank_cell(color_code)),
            }),
    {
        let mut buffer: Vec<ScreenChar> = Vec::new();
        let mut i: usize = 0;
        while i < BUFFER_CELLS
            invariant
                i <= BUFFER_CELLS,
                buffer@ == Seq::new(i as nat, |k: int| blank_cell(color_code)),
            decreases BUFFER_CELLS - i,
        {
            buffer.push(ScreenChar { ascii_character: 0x20, color_code });
            i = i + 1;
            proof {
                assert(buffer@ =~= Seq::new(i as nat, |k: int| blank_cell(color_code)));
            }
        }
        let r = Writer { column_position: 0, color_code, buffer };
        proof {
            assert(r@.cells =~= Seq::new(BUFFER_CELLS as nat, |k: int| blank_cell(color_code)));
        }
        r
    }

    /// The column at which the next byte goes.
    pub fn column_position(&self) -> (r: usize)
        ensures
            r == self@.column,
    {
        self.column_position
    }

    /// The colors the writer writes in.
    pub fn color_code(&self) -> (r: ColorCode)
        ensures
            r == self@.color,
    {
        self.color_code
    }

    /// The cells of the screen, row by row.
    pub fn cells(&self) -> (r: &Vec<ScreenChar>)
        ensures
            r@ == self@.cells,
    {
        &self.buffer
    }

    /// The cell at `row` and `col`.
    pub fn cell(&self, row: usize, col: usize) -> (r: ScreenChar)
        requires
            self.wf(),
            row < BUFFER_HEIGHT,
            col < BUFFER_WIDTH,
        ensures
            r == self@.cells[row * BUFFER_WIDTH + col],
    {
        self.buffer[row * BUFFER_WIDTH + col]
    }

    /// Writes one byte: a newline scrolls; any other byte goes to the next
    /// cell of the bottom row as it is.
    pub fn write_byte(&mut self, byte: u8)
        requires
            old(self).wf(),
        ensures
            final(self).wf(),
            final(self)@ == put_byte(old(self)@, byte),
    {
        if byte == 0x0a {
            self.new_line();
        } else {
            if self.column_position >= BUFFER_WIDTH {
                self.new_line();
            }
            let col = self.column_position;
            let color_code = self.color_code;
            self.buffer.set(LAST_ROW_START + col, ScreenChar { ascii_character: byte, color_code });
            self.column_position = self.column_position + 1;
        }
    }

    /// Writes the bytes of `s`, each non-printable byte as the placeholder.
    pub fn write_str(&mut self, s: &str)
        requires
            old(self).wf(),
        ensures
            final(self).wf(),
            final(self)@ == put_text(old(self)@, s.spec_bytes()),
    {
        self.write_bytes(s.as_bytes());
    }

    /// Writes `bytes`, each non-printable byte as the placeholder.
    pub fn write_bytes(&mut self, bytes: &[u8])
        requires
            old(self).wf(),
        ensures
            final(self).wf(),
            final(self)@ == put_text(old(self)@, bytes@),
    {
        let mut i: usize = 0;
        while i < bytes.len()
            invariant
                i <= bytes@.len(),
                self.wf(),
                self@ == put_text(old(self)@, bytes@.take(i as int)),
            decreases bytes@.len() - i,
        {
            let byte = bytes[i];
            let shown_byte = if (0x20 <= byte && byte <= 0x7e) || byte == 0x0a {
                byte
            } else {
                PLACEHOLDER
            };
            self.write_byte(shown_byte);
            proof {
                assert(bytes@.take(i + 1).drop_last() =~= bytes@.take(i as int));
            }
            i = i + 1;
        }
        proof {
            assert(bytes@.take(i as int) =~= bytes@);
        }
    }

    fn new_line(&mut self)
        requires
            old(self).wf(),
        ensures
            final(self).wf(),
            final(self)@ == scrolled(old(self)@),
    {
        let mut i: usize = 0;
        while i < LAST_ROW_START
            invariant
                i <= LAST_ROW_START,
                self.buffer@.len() == BUFFER_CELLS,
                self.column_position == old(self).column_position,
                self.color_code == old(self).color_code,
                forall|k: int| 0 <= k < i ==> self.buffer@[k] == old(self).buffer@[k + BUFFER_WIDTH],
                forall|k: int| i <= k < BUFFER_CELLS ==> self.buffer@[k] == old(self).buffer@[k],
            decreases LAST_ROW_START - i,
        {
            let c = self.buffer[i + BUFFER_WIDTH];
            self.buffer.set(i, c);
            i = i + 1;
        }
        self.clear_row(BUFFER_HEIGHT - 1);
        self.column_position = 0;
        proof {
            assert(self@.cells =~= scrolled(old(self)@).cells);
        }
    }

    fn clear_row(&mut self, row: usize)
        requires
            old(self).wf(),
            row < BUFFER_HEIGHT,
        ensures
            final(self).wf(),
            final(self).column_position == old(self).column_position,
            final(self).color_code == old(self).color_code,
            forall|k: int|
                0 <= k < BUFFER_CELLS ==> #[trigger] final(self).buffer@[k] == if row
                    * BUFFER_WIDTH <= k < (row + 1) * BUFFER_WIDTH {
                    blank_cell(old(self).color_code)
                } else {
                    old(self).buffer@[k]
                },
    {
        let blank = ScreenChar { ascii_character: 0x20, color_code: self.color_code };
        let start = row * BUFFER_WIDTH;
        let mut col: usize = 0;
        while col < BUFFER_WIDTH
            invariant
                col <= BUFFER_WIDTH,
                start == row * BUFFER_WIDTH,
                row < BUFFER_HEIGHT,
                self.buffer@.len() == BUFFER_CELLS,
                self.column_position == old(self).column_position,
                self.color_code == old(self).color_code,
                blank == blank_cell(old(self).color_code),
                forall|k: int|
                    0 <= k < BUFFER_CELLS ==> #[trigger] self.buffer@[k] == if start <= k < start
                        + col {
                        blank
                    } else {
                        old(self).buffer@[k]
                    },
            decreases BUFFER_WIDTH - col,
        {
            self.buffer.set(start + col, blank);
            col = col + 1;
        }
    }
}

} // verus!
