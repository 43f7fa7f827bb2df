//! The render surface: a grid of glyph cells with a foreground and a
//! background color each, and the three primitives the engine draws with.

use vstd::prelude::*;
use vstd::string::StringSliceAdditionalSpecFns;

use crate::config::{HEIGHT, WIDTH};

verus! {

/// The sixteen colors of a text-mode cell.
#[derive(Clone, Copy, Debug, PartialEq, Eq, Structural)]
pub enum Color {
    Black,
    Blue,
    Green,
    Cyan,
    Red,
    Magenta,
    Brown,
    LightGray,
    DarkGray,
    LightBlue,
    LightGreen,
    LightCyan,
    LightRed,
    Pink,
    Yellow,
    White,
}

/// A foreground and a background color.
#[derive(Clone, Copy, Debug, PartialEq, Eq, Structural)]
pub struct ColorCode {
    pub foreground: Color,
    pub background: Color,
}

/// One cell of the surface: the code of a glyph and its colors.
#[derive(Clone, Copy, Debug, PartialEq, Eq, Structural)]
pub struct Cell {
    pub glyph: u8,
    pub color: ColorCode,
}

/// The glyph of an empty cell.
pub const BLANK: u8 = 0x20;

/// The glyph of the digit zero; the other digits follow it.
pub const ZERO_GLYPH: u8 = 0x30;

/// The contents of a surface: `HEIGHT` rows of `WIDTH` cells, indexed row first.
pub type Frame = Seq<Seq<Cell>>;

/// A frame has `HEIGHT` rows of `WIDTH` cells.
pub open spec fn frame_wf(frame: Frame) -> bool {
    &&& frame.len() == HEIGHT
    &&& forall|row: int| 0 <= row < HEIGHT ==> (#[trigger] frame[row]).len() == WIDTH
}

/// The cell a freshly made surface shows everywhere.
pub open spec fn blank_cell() -> Cell {
    Cell { glyph: BLANK, color: ColorCode { foreground: Color::Black, background: Color::Black } }
}

/// The frame of a freshly made surface.
pub open spec fn blank_frame() -> Frame {
    Seq::new(HEIGHT as nat, |row: int| Seq::new(WIDTH as nat, |col: int| blank_cell()))
}

/// `frame` after one glyph is plotted. A position outside the grid changes nothing.
pub open spec fn plotted(frame: Frame, glyph: u8, col: int, row: int, color: ColorCode) -> Frame {
    if 0 <= col < WIDTH && 0 <= row < HEIGHT {
        frame.update(row, frame[row].update(col, Cell { glyph, color }))
    } else {
        frame
    }
}

/// The cell at column `at` of a row that showed `line` before `text` was plotted
/// on it from `col` rightwards.
pub open spec fn text_cell(
    line: Seq<Cell>,
    text: Seq<u8>,
    col: int,
    color: ColorCode,
    at: int,
) -> Cell {
    if col <= at < col + text.len() {
        Cell { glyph: text[at - col], color }
    } else {
        line[at]
    }
}

/// `frame` after `text` is plotted from `col` rightwards on `row`. What would fall
/// beyond the last column is cut off; a row outside the grid changes nothing.
pub open spec fn plotted_text(
    frame: Frame,
    text: Seq<u8>,
    col: int,
    row: int,
    color: ColorCode,
) -> Frame {
    if 0 <= row < HEIGHT {
        frame.update(
            row,
            Seq::new(WIDTH as nat, |at: int| text_cell(frame[row], text, col, color, at)),
        )
    } else {
        frame
    }
}

/// The glyph of one decimal digit.
pub open spec fn digit_glyph(digit: nat) -> u8 {
    (ZERO_GLYPH + digit) as u8
}

/// The decimal numeral of `num`, most significant digit first.
pub open spec fn decimal(num: nat) -> Seq<u8>
    decreases num,
{
    if num < 10 {
        seq![digit_glyph(num)]
    } else {
        decimal(num / 10).push(digit_glyph(num % 10))
    }
}

/// `frame` after the decimal numeral of `num` is plotted from `col` rightwards.
pub open spec fn plotted_number(
    frame: Frame,
    num: nat,
    col: int,
    row: int,
    color: ColorCode,
) -> Frame {
    plotted_text(frame, decimal(num), col, row, color)
}

/// Plotting the glyphs of a text one after the other, left to right, plots the text.
proof fn lemma_plotted_text_step(
    frame: Frame,
    text: Seq<u8>,
    col: int,
    row: int,
    color: ColorCode,
)
    requires
        frame_wf(frame),
        text.len() > 0,
        0 <= col,
    ensures
        plotted_text(frame, text, col, row, color) == plotted(
            plotted_text(frame, text.drop_last(), col, row, color),
            text.last(),
            col + text.len() - 1,
            row,
            color,
        ),
{
    let shorter = plotted_text(frame, text.drop_last(), col, row, color);
    let stepped = plotted(shorter, text.last(), col + text.len() - 1, row, color);
    let whole = plotted_text(frame, text, col, row, color);
    if 0 <= row < HEIGHT {
        assert(whole[row] =~= stepped[row]);
        assert(whole =~= stepped);
    }
}

/// Plotting no text changes nothing.
proof fn lemma_plotted_text_empty(frame: Frame, col: int, row: int, color: ColorCode)
    requires
        frame_wf(frame),
    ensures
        plotted_text(frame, Seq::<u8>::empty(), col, row, color) == frame,
{
    let whole = plotted_text(frame, Seq::<u8>::empty(), col, row, color);
    if 0 <= row < HEIGHT {
        assert(whole[row] =~= frame[row]);
        assert(whole =~= frame);
    }
}

/// The glyph of the digit `digit`.
fn digit_char(digit: usize) -> (glyph: u8)
    requires
        digit < 10,
    ensures
        glyph == digit_glyph(digit as nat),
{
    ZERO_GLYPH + digit as u8
}

/// A surface of `WIDTH` by `HEIGHT` cells.
#[derive(Clone, Copy)]
pub struct Screen {
    cells: [[Cell; WIDTH]; HEIGHT],
}

impl View for Screen {
    type V = Frame;

    closed spec fn view(&self) -> Frame {
        Seq::new(HEIGHT as nat, |row: int| self.cells[row]@)
    }
}

impl Screen {
    /// A surface that shows blank cells everywhere.
    pub fn new() -> (screen: Self)
        ensures
            screen@ == blank_frame(),
    {
        let blank = Cell {
            glyph: BLANK,
            color: ColorCode { foreground: Color::Black, background: Color::Black },
        };
        let screen = Screen { cells: [[blank; WIDTH]; HEIGHT] };
        proof {
            assert forall|row: int| 0 <= row < HEIGHT implies #[trigger] screen@[row]
                == blank_frame()[row] by {
                assert(screen@[row] =~= blank_frame()[row]);
            }
            assert(screen@ =~= blank_frame());
        }
        screen
    }

    /// Every surface holds a well-formed frame.
    pub proof fn lemma_frame_wf(self)
        ensures
            frame_wf(self@),
    {
    }

    /// The cell at column `col` of row `row`, or `None` outside the grid.
    pub fn cell(&self, col: usize, row: usize) -> (cell: Option<Cell>)
        ensures
            cell == if col < WIDTH && row < HEIGHT {
                Some(self@[row as int][col as int])
            } else {
                None
            },
    {
        if col < WIDTH && row < HEIGHT {
            Some(self.cells[row][col])
        } else {
            None
        }
    }

    /// Puts `glyph` at column `col` of row `row`. A position outside the grid is
    /// ignored.
    pub fn plot(&mut self, glyph: u8, col: usize, row: usize, color: ColorCode)
        ensures
            final(self)@ == plotted(old(self)@, glyph, col as int, row as int, color),
    {
        if col < WIDTH && row < HEIGHT {
            self.cells[row][col] = Cell { glyph, color };
            proof {
                let target = plotted(old(self)@, glyph, col as int, row as int, color);
                assert forall|r: int| 0 <= r < HEIGHT implies #[trigger] self@[r] == target[r] by {
                    assert(self@[r] =~= target[r]);
                }
                assert(self@ =~= target);
            }
        }
    }

    /// Writes `text` from column `col` rightwards on row `row`, one byte of the
    /// text per cell. What would fall beyond the last column is cut off.
    pub fn plot_str(&mut self, text: &str, col: usize, row: usize, color: ColorCode)
        ensures
            final(self)@ == plotted_text(
                old(self)@,
                text.spec_bytes(),
                col as int,
                row as int,
                color,
            ),
    {
        let bytes = text.as_bytes();
        let len = bytes.len();
        let mut i: usize = 0;
        proof {
            self.lemma_frame_wf();
            lemma_plotted_text_empty(old(self)@, col as int, row as int, color);
            assert(bytes@.take(0) =~= Seq::<u8>::empty());
        }
        while i < len && col < WIDTH && i < WIDTH - col
            invariant
                i <= len,
                len == bytes@.len(),
                frame_wf(old(self)@),
                self@ == plotted_text(
                    old(self)@,
                    bytes@.take(i as int),
                    col as int,
                    row as int,
                    color,
                ),
            decreases len - i,
        {
            let glyph = bytes[i];
            proof {
                let prefix = bytes@.take(i + 1);
                assert(prefix.drop_last() =~= bytes@.take(i as int));
                lemma_plotted_text_step(old(self)@, prefix, col as int, row as int, color);
            }
            self.plot(glyph, col + i, row, color);
            i = i + 1;
        }
        proof {
            let done = plotted_text(
                old(self)@,
                bytes@.take(i as int),
                col as int,
                row as int,
                color,
            );
            let whole = plotted_text(old(self)@, bytes@, col as int, row as int, color);
            if 0 <= row < HEIGHT {
                assert(done[row as int] =~= whole[row as int]);
                assert(done =~= whole);
            }
        }
    }

    /// Writes the decimal numeral of `num` from column `col` rightwards on row
    /// `row`. What would fall beyond the last column is cut off.
    pub fn plot_num(&mut self, num: usize, col: usize, row: usize, color: ColorCode)
        ensures
            final(self)@ == plotted_number(old(self)@, num as nat, col as int, row as int, color),
    {
        self.plot_digits(num, col, row, color);
    }

    /// Writes the decimal numeral of `num` and returns the column that follows
    /// its last digit, held at the largest column there is.
    fn plot_digits(&mut self, num: usize, col: usize, row: usize, color: ColorCode) -> (next: usize)
        ensures
            final(self)@ == plotted_number(old(self)@, num as nat, col as int, row as int, color),
            next == if col + decimal(num as nat).len() > usize::MAX {
                usize::MAX as int
            } else {
                col + decimal(num as nat).len()
            },
        decreases num,
    {
        proof {
            self.lemma_frame_wf();
        }
        let ghost text = decimal(num as nat);
        if num < 10 {
            self.plot(digit_char(num), col, row, color);
            proof {
                assert(text.drop_last() =~= Seq::<u8>::empty());
                lemma_plotted_text_empty(old(self)@, col as int, row as int, color);
                lemma_plotted_text_step(old(self)@, text, col as int, row as int, color);
            }
            col.saturating_add(1)
        } else {
            let at = self.plot_digits(num / 10, col, row, color);
            self.plot(digit_char(num % 10), at, row, color);
            proof {
                assert(text.drop_last() =~= decimal((num / 10) as nat));
                lemma_plotted_text_step(old(self)@, text, col as int, row as int, color);
            }
            at.saturating_add(1)
        }
    }
}

} // verus!
