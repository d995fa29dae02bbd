//! Model of the screen-memory text buffer driver.
//!
//! The real device is a grid of character cells at a fixed physical address;
//! the model holds the same grid as owned memory, row-major.  The writer
//! always writes on the last row, wraps at the row width, and scrolls every
//! row up by one on a newline; bytes outside the printable range are shown
//! as a fallback square.  Every operation is specified as a pure function of
//! the writer's state, so the exact screen contents after any byte sequence
//! are pinned.

use vstd::prelude::*;
use vstd::string::StringSliceAdditionalSpecFns;

verus! {

/// Number of rows of the text buffer.
pub const BUFFER_HEIGHT: usize = 25;

/// Number of character cells in one row of the text buffer.
pub const BUFFER_WIDTH: usize = 80;

/// Number of cells of the whole grid.
pub const BUFFER_CELLS: usize = BUFFER_HEIGHT * BUFFER_WIDTH;

/// The newline byte, which scrolls instead of printing.
pub const NEWLINE: u8 = 0x0a;

/// First byte of the printable range.
pub const PRINTABLE_MIN: u8 = 0x20;

/// Last byte of the printable range.
pub const PRINTABLE_MAX: u8 = 0x7e;

/// The square glyph shown for a byte outside the printable range.
pub const FALLBACK_GLYPH: u8 = 0xfe;

/// The blank cell byte: a space.
pub const BLANK: u8 = 0x20;

/// The two palette entries the kernel uses.  The device addresses its
/// sixteen-color palette by number; only these two are ever selected.
#[derive(Debug, Clone, Copy, PartialEq, Eq, Structural)]
pub enum Color {
    Black,
    White,
}

impl Color {
    /// Palette number of the color, as the device defines it.
    pub open spec fn spec_as_u8(self) -> u8 {
        match self {
            Color::Black => 0,
            Color::White => 15,
        }
    }

    /// Palette number of the color, as the device defines it.
    #[verifier::when_used_as_spec(spec_as_u8)]
    pub fn as_u8(self) -> (r: u8)
        ensures
            r == self.spec_as_u8(),
    {
        match self {
            Color::Black => 0,
            Color::White => 15,
        }
    }
}

/// One byte holding a background color in its four most significant bits and
/// a foreground color in its four least significant bits.
#[derive(Debug, Clone, Copy, PartialEq, Eq, Structural)]
pub struct ColorCode(u8);

impl ColorCode {
    /// The packed byte value.
    pub closed spec fn value(self) -> u8 {
        self.0
    }

    /// Packs a background and a foreground color into one attribute byte.
    pub fn new(bg: Color, fg: Color) -> (r: ColorCode)
        ensures
            r.value() == bg.spec_as_u8() * 16 + fg.spec_as_u8(),
    {
        let b: u8 = bg.as_u8();
        let f: u8 = fg.as_u8();
        assert((b << 4) | f == b * 16 + f) by (bit_vector)
            requires
                b <= 15 && f <= 15,
        ;
        ColorCode((b << 4) | f)
    }

    /// The packed byte value.
    pub fn raw(self) -> (r: u8)
        ensures
            r == self.value(),
    {
        self.0
    }
}

/// One character cell of the device: a byte and its color attribute, in the
/// device's layout.
#[derive(Debug, Clone, Copy, PartialEq, Eq, Structural)]
pub struct ScreenChar {
    pub ascii_character: u8,
    pub color_code: ColorCode,
}

/// Memory representation of the text buffer.  The device's grid is held
/// row-major: the cell at row `r`, column `c` is entry `r * BUFFER_WIDTH + c`.
pub struct Buffer {
    pub chars: Vec<ScreenChar>,
}

/// The writer's state as mathematics: the grid of cells, the column the next
/// byte lands in, and the active color.
pub ghost struct WriterView {
    pub cells: Seq<ScreenChar>,
    pub column: nat,
    pub color: ColorCode,
}

/// The blank cell: a space in the given color.
pub open spec fn spec_blank(color: ColorCode) -> ScreenChar {
    ScreenChar { ascii_character: BLANK, color_code: color }
}

/// The grid after a newline: every row moves up one, the last row is
/// cleared to blanks, and the column returns to the left edge.
pub open spec fn spec_new_line(v: WriterView) -> WriterView {
    WriterView {
        cells: Seq::new(
            BUFFER_CELLS as nat,
            |i: int|
                if i < (BUFFER_HEIGHT - 1) * BUFFER_WIDTH {
                    v.cells[i + BUFFER_WIDTH]
                } else {
                    spec_blank(v.color)
                },
        ),
        column: 0,
        color: v.color,
    }
}

/// The writer after one byte, written verbatim: a newline scrolls; any other
/// byte lands on the last row at the current column (after scrolling first
/// if the row is full) and advances the column.
pub open spec fn spec_write_byte(v: WriterView, b: u8) -> WriterView {
    if b == NEWLINE {
        spec_new_line(v)
    } else {
        let v1 = if v.column >= BUFFER_WIDTH {
            spec_new_line(v)
        } else {
            v
        };
        WriterView {
            cells: v1.cells.update(
                (BUFFER_HEIGHT - 1) * BUFFER_WIDTH + v1.column,
                ScreenChar { ascii_character: b, color_code: v1.color },
            ),
            column: v1.column + 1,
            color: v1.color,
        }
    }
}

/// The writer after a sequence of bytes, written verbatim in order.
pub open spec fn spec_write_bytes(v: WriterView, bs: Seq<u8>) -> WriterView
    decreases bs.len(),
{
    if bs.len() == 0 {
        v
    } else {
        spec_write_byte(spec_write_bytes(v, bs.drop_last()), bs.last())
    }
}

/// What a byte of text shows on screen: printable bytes and the newline pass
/// through; everything else (bytes of multi-byte encodings included) shows
/// the fallback square.
pub open spec fn spec_filter(b: u8) -> u8 {
    if (PRINTABLE_MIN <= b <= PRINTABLE_MAX) || b == NEWLINE {
        b
    } else {
        FALLBACK_GLYPH
    }
}

/// The writer after a sequence of text bytes, each filtered to the printable
/// range first.
pub open spec fn spec_write_text(v: WriterView, bs: Seq<u8>) -> WriterView {
    spec_write_bytes(v, bs.map_values(|b: u8| spec_filter(b)))
}

/// The public interface to the text device.
/// - Always writes to the last line and shifts up when full or on a newline.
/// - The grid must live for the entire program life; the model owns its copy.
pub struct Writer {
    pub column_position: usize,
    pub color_code: ColorCode,
    pub buffer: Buffer,
}

impl View for Writer {
    type V = WriterView;

    open spec fn view(&self) -> WriterView {
        WriterView {
            cells: self.buffer.chars@,
            column: self.column_position as nat,
            color: self.color_code,
        }
    }
}

impl Writer {
    /// A well-formed writer has a full grid and a column within the row.
    pub open spec fn wf(self) -> bool {
        &&& self@.cells.len() == BUFFER_CELLS
        &&& self@.column <= BUFFER_WIDTH
    }

    /// A fresh writer in the given color: a cleared screen, the column at
    /// the left edge.
    pub fn new(color_code: ColorCode) -> (w: Writer)
        ensures
            w.wf(),
            w@.column == 0,
            w@.color == color_code,
            w@.cells =~= Seq::new(BUFFER_CELLS as nat, |i: int| spec_blank(color_code)),
    {
        let blank = ScreenChar { ascii_character: BLANK, color_code };
        Writer { column_position: 0, color_code, buffer: Buffer { chars: vec![blank; BUFFER_CELLS] } }
    }

    /// The column the next byte lands in has passed the right edge.
    fn eol(&self) -> (r: bool)
        ensures
            r == (self@.column >= BUFFER_WIDTH),
    {
        self.column_position >= BUFFER_WIDTH
    }

    /// Replaces every cell of row `row` with a blank in the current color.
    fn clear_row(&mut self, row: usize)
        requires
            old(self).wf(),
            row < BUFFER_HEIGHT,
        ensures
            final(self).wf(),
            final(self)@.column == old(self)@.column,
            final(self)@.color == old(self)@.color,
            final(self)@.cells =~= Seq::new(
                BUFFER_CELLS as nat,
                |i: int|
                    if row * BUFFER_WIDTH <= i < (row + 1) * BUFFER_WIDTH {
                        spec_blank(old(self)@.color)
                    } else {
                        old(self)@.cells[i]
                    },
            ),
    {
        let blank = ScreenChar { ascii_character: BLANK, color_code: self.color_code };
        let base = row * BUFFER_WIDTH;
        let mut col: usize = 0;
        while col < BUFFER_WIDTH
            invariant
                col <= BUFFER_WIDTH,
                base == row * BUFFER_WIDTH,
                row < BUFFER_HEIGHT,
                blank == spec_blank(old(self)@.color),
                self.buffer.chars@.len() == BUFFER_CELLS,
                self.column_position == old(self).column_position,
                self.color_code == old(self).color_code,
                forall|j: int|
                    base <= j < base + col ==> self.buffer.chars@[j] == spec_blank(
                        old(self)@.color,
                    ),
                forall|j: int|
                    0 <= j < BUFFER_CELLS && !(base <= j < base + col) ==> self.buffer.chars@[j]
                        == old(self)@.cells[j],
            decreases BUFFER_WIDTH - col,
        {
            self.buffer.chars[base + col] = blank;
            col = col + 1;
        }
    }

    /// Shifts every row up by one and clears the last row.
    fn new_line(&mut self)
        requires
            old(self).wf(),
        ensures
            final(self).wf(),
            final(self)@ == spec_new_line(old(self)@),
    {
        let mut i: usize = 0;
        while i < (BUFFER_HEIGHT - 1) * BUFFER_WIDTH
            invariant
                i <= (BUFFER_HEIGHT - 1) * BUFFER_WIDTH,
                self.buffer.chars@.len() == BUFFER_CELLS,
                self.column_position == old(self).column_position,
                self.color_code == old(self).color_code,
                old(self).wf(),
                forall|j: int| 0 <= j < i ==> self.buffer.chars@[j] == old(self)@.cells[j + BUFFER_WIDTH],
                forall|j: int|
                    i <= j < BUFFER_CELLS ==> self.buffer.chars@[j] == old(self)@.cells[j],
            decreases (BUFFER_HEIGHT - 1) * BUFFER_WIDTH - i,
        {
            let c = self.buffer.chars[i + BUFFER_WIDTH];
            self.buffer.chars[i] = c;
            i = i + 1;
        }
        self.clear_row(BUFFER_HEIGHT - 1);
        self.column_position = 0;
        assert(final(self)@.cells =~= spec_new_line(old(self)@).cells);
    }

    /// Writes one byte verbatim: a newline scrolls, anything else is painted
    /// at the current column of the last row (scrolling first if the row is
    /// full).
    pub fn write_byte(&mut self, byte: u8)
        requires
            old(self).wf(),
        ensures
            final(self).wf(),
            final(self)@ == spec_write_byte(old(self)@, byte),
    {
        if byte == NEWLINE {
            self.new_line();
        } else {
            if self.eol() {
                self.new_line();
            }
            let row = BUFFER_HEIGHT - 1;
            let col = self.column_position;
            let color_code = self.color_code;
            self.buffer.chars[row * BUFFER_WIDTH + col] = ScreenChar {
                ascii_character: byte,
                color_code,
            };
            self.column_position = col + 1;
        }
    }

    /// Writes one byte of text: printable bytes verbatim, anything else as
    /// the fallback square.
    pub fn write_filtered_byte(&mut self, byte: u8)
        requires
            old(self).wf(),
        ensures
            final(self).wf(),
            final(self)@ == spec_write_byte(old(self)@, spec_filter(byte)),
    {
        if (PRINTABLE_MIN <= byte && byte <= PRINTABLE_MAX) || byte == NEWLINE {
            self.write_byte(byte);
        } else {
            self.write_byte(FALLBACK_GLYPH);
        }
    }

    /// Writes a string's bytes in order, each filtered to the printable
    /// range.  A byte inside a multi-byte character is never printable, so
    /// such a character paints one square per encoded byte.
    pub fn write_string(&mut self, s: &str)
        requires
            old(self).wf(),
        ensures
            final(self).wf(),
            final(self)@ == spec_write_text(old(self)@, s.spec_bytes()),
    {
        let bs: &[u8] = s.as_bytes();
        let n: usize = bs.len();
        let ghost filtered = s.spec_bytes().map_values(|b: u8| spec_filter(b));
        let mut i: usize = 0;
        while i < n
            invariant
                i <= n,
                n == bs@.len(),
                bs@ == s.spec_bytes(),
                filtered == s.spec_bytes().map_values(|b: u8| spec_filter(b)),
                self.wf(),
                self@ == spec_write_bytes(old(self)@, filtered.take(i as int)),
            decreases n - i,
        {
            let b = bs[i];
            proof {
                assert(filtered.take(i + 1).drop_last() =~= filtered.take(i as int));
                assert(filtered.take(i + 1).last() == spec_filter(bs@[i as int]));
            }
            self.write_filtered_byte(b);
            i = i + 1;
        }
        proof {
            assert(filtered.take(n as int) =~= filtered);
        }
    }

    /// Writes one Unicode character as its encoded byte stream would paint
    /// it: an ASCII character is one text byte; any other character's
    /// encoding consists only of bytes outside the printable range, so it
    /// paints one square per encoded byte (two, three or four, by the
    /// character's code point).
    pub fn write_unicode_char(&mut self, c: char)
        requires
            old(self).wf(),
        ensures
            final(self).wf(),
            final(self)@ == spec_write_text(old(self)@, spec_char_bytes(c)),
    {
        let u = c as u32;
        let ghost bytes = spec_char_bytes(c);
        let ghost filtered = bytes.map_values(|b: u8| spec_filter(b));
        if u < 0x80 {
            assert(filtered =~= seq![spec_filter((c as u32) as u8)]);
            assert(filtered.drop_last() =~= Seq::<u8>::empty());
            self.write_filtered_byte(u as u8);
            proof {
                assert(spec_write_bytes(old(self)@, filtered.drop_last()) == old(self)@);
                assert(filtered.last() == spec_filter((c as u32) as u8));
                assert(self@ == spec_write_byte(
                    spec_write_bytes(old(self)@, filtered.drop_last()),
                    filtered.last(),
                ));
            }
        } else {
            let n: usize = if u < 0x800 {
                2
            } else if u < 0x10000 {
                3
            } else {
                4
            };
            assert(n == bytes.len());
            let mut i: usize = 0;
            while i < n
                invariant
                    i <= n,
                    n == bytes.len(),
                    bytes == spec_char_bytes(c),
                    (c as u32) >= 0x80,
                    filtered == bytes.map_values(|b: u8| spec_filter(b)),
                    self.wf(),
                    self@ == spec_write_bytes(old(self)@, filtered.take(i as int)),
                decreases n - i,
            {
                proof {
                    assert(filtered.take(i + 1).drop_last() =~= filtered.take(i as int));
                    assert(filtered.take(i + 1).last() == spec_filter(bytes[i as int]));
                }
                self.write_filtered_byte(FALLBACK_GLYPH);
                i = i + 1;
            }
            proof {
                assert(filtered.take(n as int) =~= filtered);
            }
        }
    }
}

/// How many bytes the character's encoding occupies, by code point range.
pub open spec fn spec_utf8_len(c: char) -> nat {
    if (c as u32) < 0x80 {
        1
    } else if (c as u32) < 0x800 {
        2
    } else if (c as u32) < 0x10000 {
        3
    } else {
        4
    }
}

/// The text bytes one Unicode character feeds the writer: an ASCII character
/// is its own single byte; the encoding of any other character consists only
/// of bytes at 0x80 or above, which the filter shows as squares, so only
/// their number matters.
pub open spec fn spec_char_bytes(c: char) -> Seq<u8> {
    if (c as u32) < 0x80 {
        seq![(c as u32) as u8]
    } else {
        Seq::new(spec_utf8_len(c), |i: int| FALLBACK_GLYPH)
    }
}

} // verus!
