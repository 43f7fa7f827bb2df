//! Compile-time configuration of the arena: board size, slot capacities,
//! scheduling intervals, the random seed and the wall map.

use vstd::prelude::*;
use vstd::string::StringSliceAdditionalSpecFns;

use crate::screen::BLANK;
use crate::walls::{NEWLINE, WALL_GLYPH};

verus! {

/// Number of columns of the board.
pub const WIDTH: usize = 80;

/// Number of rows of the board.
pub const HEIGHT: usize = 25;

/// Coordinate, on both axes, at which an inactive shooter or projectile is parked.
/// It lies outside the board.
pub const OFF_BOARD: usize = 100;

/// Number of shooter slots.
pub const SHOOTER_CAPACITY: usize = 100;

/// The shooter cursor wraps at this value: the slots before it are handed out
/// in turn, and the oldest shooter is overwritten once each has been.
pub const SHOOTER_RING: usize = 99;

/// Number of projectile slots.
pub const PROJECTILE_CAPACITY: usize = 1000;

/// The projectile cursor wraps at this value: the slots before it are written
/// in turn, and the oldest projectile is overwritten once each has been.
pub const PROJECTILE_RING: usize = 250;

/// A shooter is spawned on every tick whose clock is a multiple of this interval.
pub const SPAWN_INTERVAL: usize = 20;

/// The active shooters move on every tick that brings the clock to a multiple of
/// this interval.
pub const MOVE_INTERVAL: usize = 5;

/// At most this many of the most recently written projectile slots are drawn and
/// tested against the player on each tick.
pub const DRAWN_PROJECTILES: usize = 50;

/// Row on which shooters are spawned.
pub const SPAWN_ROW: usize = 3;

/// Seed of the random source, at construction and at every reset.
pub const SEED: u64 = 6;

/// The label in front of the score.
pub const SCORE_LABEL: &'static str = "Score:";

/// The message shown once the game is over.
pub const OVER_MESSAGE: &'static str = "Game Over! Press 's' to restart";

/// Column of the score label, on the top row.
pub const LABEL_COLUMN: usize = 1;

/// Column at which the score starts, on the top row.
pub const SCORE_COLUMN: usize = 7;

/// Column at which the message starts, on the top row.
pub const MESSAGE_COLUMN: usize = 12;

/// The wall map: one line per row, `#` for a wall cell.
pub const WALLS: &'static str = "################################################################################
#                                                                              #
#                                                                              #
#                                                                              #
#                                                                              #
#                                                                              #
#                                                                              #
#                                                                              #
#                                                                              #
#                                                                              #
#                                                                              #
#                                                                              #
#                                                                              #
#                                                                              #
#                                                                              #
#                                                                              #
#                                                                              #
#                                                                              #
#                                                                              #
#                                                                              #
#                                                                              #
#                                                                              #
#                                                                              #
#                                                                              #
################################################################################";

/// The byte at offset `at` of a map text that shows the arena: `HEIGHT` rows of
/// `WIDTH` bytes, each but the last ended by a line end, with a wall mark on
/// every cell of the first and the last row and column and a blank elsewhere.
pub open spec fn arena_byte(at: int) -> u8 {
    let row = at / (WIDTH + 1);
    let col = at % (WIDTH + 1);
    if col == WIDTH {
        NEWLINE
    } else if row == 0 || row == HEIGHT - 1 || col == 0 || col == WIDTH - 1 {
        WALL_GLYPH
    } else {
        BLANK
    }
}

/// The wall map shows the arena. A literal tells the verifier what it holds only
/// where the literal itself is written, so the map is written out once more.
pub proof fn lemma_walls_show_arena()
    ensures
        WALLS.spec_bytes().len() == HEIGHT * (WIDTH + 1) - 1,
        forall|at: int|
            0 <= at < WALLS.spec_bytes().len() ==> #[trigger] WALLS.spec_bytes()[at] == arena_byte(
                at,
            ),
{
    reveal_strlit(
        "################################################################################
#                                                                              #
#                                                                              #
#                                                                              #
#                                                                              #
#                                                                              #
#                                                                              #
#                                                                              #
#                                                                              #
#                                                                              #
#                                                                              #
#                                                                              #
#                                                                              #
#                                                                              #
#                                                                              #
#                                                                              #
#                                                                              #
#                                                                              #
#                                                                              #
#                                                                              #
#                                                                              #
#                                                                              #
#                                                                              #
#                                                                              #
################################################################################",
    );
    assert(WALLS@.len() == 2024);
    assert(forall|at: int|
        0 <= at < 2024 ==> (#[trigger] WALLS@[at]) as u8 == arena_byte(at) && WALLS@[at]
            <= '\u{7f}');
    assert(vstd::utf8::is_ascii_chars(WALLS@));
    vstd::utf8::is_ascii_chars_encode_utf8(WALLS@);
}

} // verus!
