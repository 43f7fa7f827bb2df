//! The static occupancy map of the board.

use vstd::prelude::*;
use vstd::string::StringSliceAdditionalSpecFns;

use crate::config::{arena_byte, lemma_walls_show_arena, HEIGHT, WALLS, WIDTH};
use crate::screen::{frame_wf, Cell, Color, ColorCode, Frame, Screen, BLANK};

verus! {

/// The byte that marks a wall cell in a map text, and the glyph walls are drawn with.
pub const WALL_GLYPH: u8 = 0x23;

/// The byte that ends a row of a map text.
pub const NEWLINE: u8 = 0x0a;

/// Which cells hold a wall: `HEIGHT` rows of `WIDTH` cells, indexed row first.
pub type Occupancy = Seq<Seq<bool>>;

/// An occupancy map has `HEIGHT` rows of `WIDTH` cells.
pub open spec fn occupancy_wf(cells: Occupancy) -> bool {
    &&& cells.len() == HEIGHT
    &&& forall|row: int| 0 <= row < HEIGHT ==> (#[trigger] cells[row]).len() == WIDTH
}

/// The number of line ends in `text`.
pub open spec fn newlines(text: Seq<u8>) -> nat
    decreases text.len(),
{
    if text.len() == 0 {
        0
    } else if text.last() == NEWLINE {
        newlines(text.drop_last()) + 1
    } else {
        newlines(text.drop_last())
    }
}

/// The number of bytes of `text` that follow its last line end.
pub open spec fn tail_width(text: Seq<u8>) -> nat
    decreases text.len(),
{
    if text.len() == 0 {
        0
    } else if text.last() == NEWLINE {
        0
    } else {
        tail_width(text.drop_last()) + 1
    }
}

/// The byte at offset `at` of `text` is a wall mark and stands in row `row` of the
/// text, `col` bytes into that row.
pub open spec fn marks_wall(text: Seq<u8>, at: int, row: int, col: int) -> bool {
    &&& 0 <= at < text.len()
    &&& text[at] == WALL_GLYPH
    &&& newlines(text.take(at)) == row
    &&& tail_width(text.take(at)) == col
}

/// One of the first `upto` bytes of `text` marks a wall at row `row`, column `col`.
pub open spec fn wall_before(text: Seq<u8>, upto: int, row: int, col: int) -> bool {
    exists|at: int| 0 <= at < upto && #[trigger] marks_wall(text, at, row, col)
}

/// The occupancy map that a map text stands for. A cell holds a wall exactly if the
/// text has a wall mark at its row and column. Cells that the text does not reach
/// are free, and marks beyond the board are ignored.
pub open spec fn parsed(text: Seq<u8>) -> Occupancy {
    Seq::new(
        HEIGHT as nat,
        |row: int| Seq::new(WIDTH as nat, |col: int| wall_before(text, text.len() as int, row, col)),
    )
}

/// Whether the cell at `row`, `col` is closed to movement: it lies outside the
/// board or holds a wall.
pub open spec fn occupied_at(cells: Occupancy, row: int, col: int) -> bool {
    !(0 <= row < HEIGHT && 0 <= col < WIDTH) || cells[row][col]
}

/// The colors walls are drawn in.
pub open spec fn wall_color() -> ColorCode {
    ColorCode { foreground: Color::Blue, background: Color::Black }
}

/// The cell that the surface shows for the board cell at `row`, `col`.
pub open spec fn wall_cell(cells: Occupancy, row: int, col: int) -> Cell {
    Cell { glyph: if cells[row][col] { WALL_GLYPH } else { BLANK }, color: wall_color() }
}

/// The frame that shows the walls and nothing else.
pub open spec fn wall_frame(cells: Occupancy) -> Frame {
    Seq::new(HEIGHT as nat, |row: int| Seq::new(WIDTH as nat, |col: int| wall_cell(cells, row, col)))
}

/// `text` is a grid: `HEIGHT` rows of `WIDTH` bytes, each but the last ended by
/// a line end, and no line end anywhere else.
pub open spec fn grid_text(text: Seq<u8>) -> bool {
    &&& text.len() == HEIGHT * (WIDTH + 1) - 1
    &&& forall|at: int|
        0 <= at < text.len() ==> ((#[trigger] text[at] == NEWLINE) <==> at % (WIDTH + 1) == WIDTH)
}

/// The occupancy map of the arena: what the wall map of the configuration
/// stands for.
pub open spec fn arena() -> Occupancy {
    parsed(WALLS.spec_bytes())
}

/// The cell at `row`, `col` lies on the first or the last row or column of the
/// board.
pub open spec fn on_border(row: int, col: int) -> bool {
    row == 0 || row == HEIGHT - 1 || col == 0 || col == WIDTH - 1
}

/// In a grid the byte at offset `at` stands in row `at / (WIDTH + 1)`, at column
/// `at % (WIDTH + 1)`.
pub proof fn lemma_grid_position(text: Seq<u8>, at: int)
    requires
        grid_text(text),
        0 <= at <= text.len(),
    ensures
        newlines(text.take(at)) == at / (WIDTH + 1),
        tail_width(text.take(at)) == at % (WIDTH + 1),
    decreases at,
{
    if at > 0 {
        lemma_grid_position(text, at - 1);
        assert(text.take(at).drop_last() =~= text.take(at - 1));
        assert(text.take(at).last() == text[at - 1]);
    }
}

/// In a grid a cell of the board holds a wall exactly if the byte for that cell
/// is a wall mark.
pub proof fn lemma_grid_cell(text: Seq<u8>, row: int, col: int)
    requires
        grid_text(text),
        0 <= row < HEIGHT,
        0 <= col < WIDTH,
    ensures
        parsed(text)[row][col] == (text[row * (WIDTH + 1) + col] == WALL_GLYPH),
{
    let at = row * (WIDTH + 1) + col;
    assert(row * (WIDTH + 1) == row * 81) by (nonlinear_arith)
        requires
            WIDTH + 1 == 81,
    ;
    lemma_grid_position(text, at);
    if text[at] == WALL_GLYPH {
        assert(marks_wall(text, at, row, col));
    }
    if wall_before(text, text.len() as int, row, col) {
        let other = choose|other: int|
            0 <= other < text.len() && #[trigger] marks_wall(text, other, row, col);
        lemma_grid_position(text, other);
        assert(other == at);
    }
}

/// The arena is enclosed: its walls are the cells of the first and the last row
/// and column, and every other cell of the board is free.
pub proof fn lemma_arena_enclosed()
    ensures
        occupancy_wf(arena()),
        forall|row: int, col: int|
            0 <= row < HEIGHT && 0 <= col < WIDTH ==> #[trigger] arena()[row][col] == on_border(
                row,
                col,
            ),
{
    let text = WALLS.spec_bytes();
    lemma_walls_show_arena();
    assert(grid_text(text)) by {
        assert forall|at: int| 0 <= at < text.len() implies ((#[trigger] text[at] == NEWLINE) <==> at
            % (WIDTH + 1) == WIDTH) by {
            assert(text[at] == arena_byte(at));
        }
    }
    assert forall|row: int, col: int| 0 <= row < HEIGHT && 0 <= col < WIDTH implies #[trigger] arena()[row][col]
        == on_border(row, col) by {
        lemma_grid_cell(text, row, col);
        let at = row * (WIDTH + 1) + col;
        assert(row * (WIDTH + 1) == row * 81) by (nonlinear_arith)
            requires
                WIDTH + 1 == 81,
        ;
        assert(text[at] == arena_byte(at));
        assert(at / (WIDTH + 1) == row && at % (WIDTH + 1) == col);
    }
}

/// One more byte of the text adds at most the wall that this byte marks.
proof fn lemma_wall_before_step(text: Seq<u8>, upto: int, row: int, col: int)
    requires
        0 <= upto < text.len(),
    ensures
        wall_before(text, upto + 1, row, col) == (wall_before(text, upto, row, col) || marks_wall(
            text,
            upto,
            row,
            col,
        )),
{
    if wall_before(text, upto + 1, row, col) {
        let at = choose|at: int| 0 <= at < upto + 1 && #[trigger] marks_wall(text, at, row, col);
        if at < upto {
            assert(wall_before(text, upto, row, col));
        }
    }
    if wall_before(text, upto, row, col) {
        let at = choose|at: int| 0 <= at < upto && #[trigger] marks_wall(text, at, row, col);
        assert(marks_wall(text, at, row, col));
    }
}

/// The occupancy map of the board.
#[derive(Clone, Copy)]
pub struct Walls {
    cells: [[bool; WIDTH]; HEIGHT],
}

impl View for Walls {
    type V = Occupancy;

    closed spec fn view(&self) -> Occupancy {
        Seq::new(HEIGHT as nat, |row: int| self.cells[row]@)
    }
}

impl Walls {
    /// Every map has `HEIGHT` rows of `WIDTH` cells.
    pub proof fn lemma_occupancy_wf(self)
        ensures
            occupancy_wf(self@),
    {
    }

    /// Reads a map text: one line per row, top row first, a `#` for each wall
    /// cell. Rows shorter than the board leave their remaining cells free, and
    /// so do missing rows; what lies beyond the board is ignored.
    pub fn new(map: &str) -> (walls: Self)
        ensures
            walls@ == parsed(map.spec_bytes()),
    {
        let bytes = map.as_bytes();
        let len = bytes.len();
        let mut cells = [[false; WIDTH]; HEIGHT];
        let mut row: usize = 0;
        let mut col: usize = 0;
        let mut i: usize = 0;
        proof {
            assert(bytes@.take(0) =~= Seq::<u8>::empty());
        }
        while i < len
            invariant
                i <= len,
                len == bytes@.len(),
                row <= i,
                col <= i,
                row == newlines(bytes@.take(i as int)),
                col == tail_width(bytes@.take(i as int)),
                forall|r: int, c: int|
                    0 <= r < HEIGHT && 0 <= c < WIDTH ==> #[trigger] cells[r][c] == wall_before(
                        bytes@,
                        i as int,
                        r,
                        c,
                    ),
            decreases len - i,
        {
            let byte = bytes[i];
            proof {
                assert(bytes@.take(i + 1).drop_last() =~= bytes@.take(i as int));
                assert forall|r: int, c: int|
                    wall_before(bytes@, i + 1, r, c) == (wall_before(bytes@, i as int, r, c)
                        || marks_wall(bytes@, i as int, r, c)) by {
                    lemma_wall_before_step(bytes@, i as int, r, c);
                }
            }
            if byte == WALL_GLYPH && row < HEIGHT && col < WIDTH {
                cells[row][col] = true;
            }
            if byte == NEWLINE {
                row = row + 1;
                col = 0;
            } else {
                col = col + 1;
            }
            i = i + 1;
        }
        let walls = Walls { cells };
        proof {
            assert(bytes@.take(len as int) =~= bytes@);
            let target = parsed(bytes@);
            assert forall|r: int| 0 <= r < HEIGHT implies #[trigger] walls@[r] == target[r] by {
                assert forall|c: int| 0 <= c < WIDTH implies walls@[r][c] == target[r][c] by {
                    assert(cells[r][c] == wall_before(bytes@, len as int, r, c));
                }
                assert(walls@[r] =~= target[r]);
            }
            assert(walls@ =~= target);
        }
        walls
    }

    /// Whether the cell at `row`, `col` is closed to movement: a position
    /// outside the board is, and so is a wall cell.
    pub fn occupied(&self, row: usize, col: usize) -> (closed: bool)
        ensures
            closed == occupied_at(self@, row as int, col as int),
    {
        if row >= HEIGHT || col >= WIDTH {
            return true;
        }
        self.cells[row][col]
    }

    /// The glyph that stands for the cell at `row`, `col`.
    fn char_at(&self, row: usize, col: usize) -> (glyph: u8)
        requires
            row < HEIGHT,
            col < WIDTH,
        ensures
            glyph == wall_cell(self@, row as int, col as int).glyph,
    {
        if self.cells[row][col] {
            WALL_GLYPH
        } else {
            BLANK
        }
    }

    /// Draws every cell of the board: the wall glyph where a wall stands and a
    /// blank elsewhere. Nothing of what the surface showed before is left.
    pub fn draw(&self, screen: &mut Screen)
        ensures
            final(screen)@ == wall_frame(self@),
    {
        let color = ColorCode { foreground: Color::Blue, background: Color::Black };
        let mut row: usize = 0;
        proof {
            screen.lemma_frame_wf();
        }
        while row < HEIGHT
            invariant
                row <= HEIGHT,
                color == wall_color(),
                frame_wf(screen@),
                forall|r: int, c: int|
                    0 <= r < row && 0 <= c < WIDTH ==> #[trigger] screen@[r][c] == wall_cell(
                        self@,
                        r,
                        c,
                    ),
            decreases HEIGHT - row,
        {
            let mut col: usize = 0;
            while col < WIDTH
                invariant
                    row < HEIGHT,
                    col <= WIDTH,
                    color == wall_color(),
                    frame_wf(screen@),
                    forall|r: int, c: int|
                        0 <= r < row && 0 <= c < WIDTH ==> #[trigger] screen@[r][c] == wall_cell(
                            self@,
                            r,
                            c,
                        ),
                    forall|c: int|
                        0 <= c < col ==> #[trigger] screen@[row as int][c] == wall_cell(
                            self@,
                            row as int,
                            c,
                        ),
                decreases WIDTH - col,
            {
                screen.plot(self.char_at(row, col), col, row, color);
                col = col + 1;
            }
            row = row + 1;
        }
        proof {
            let target = wall_frame(self@);
            assert forall|r: int| 0 <= r < HEIGHT implies #[trigger] screen@[r] == target[r] by {
                assert forall|c: int| 0 <= c < WIDTH implies screen@[r][c] == target[r][c] by {
                    assert(screen@[r][c] == wall_cell(self@, r, c));
                }
                assert(screen@[r] =~= target[r]);
            }
            assert(screen@ =~= target);
        }
    }
}

} // verus!
