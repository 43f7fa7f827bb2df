//! Projectiles: directional hazards that end the game on contact with the player.

use vstd::prelude::*;

use crate::config::{HEIGHT, OFF_BOARD, WIDTH};
use crate::screen::{plotted, Color, ColorCode, Frame, Screen};
use crate::walls::{occupied_at, Occupancy, Walls};

verus! {

/// The glyph projectiles are drawn with.
pub const PROJECTILE_GLYPH: u8 = 0x58;

/// The four directions a projectile can travel in.
#[derive(Clone, Copy, Debug, PartialEq, Eq, Structural)]
pub enum Direction {
    Right,
    Down,
    Left,
    Up,
}

/// A projectile: a position and a direction of travel. One that is not in play
/// is parked off the board.
#[derive(Clone, Copy, Debug, PartialEq, Eq, Structural)]
pub struct Projectile {
    pub x: usize,
    pub y: usize,
    pub dir: Direction,
}

/// `value + 1`, held at the largest coordinate there is.
pub open spec fn up_one(value: usize) -> usize {
    if value < usize::MAX {
        (value + 1) as usize
    } else {
        value
    }
}

/// `value - 1`, held at zero.
pub open spec fn down_one(value: usize) -> usize {
    if value > 0 {
        (value - 1) as usize
    } else {
        value
    }
}

/// The colors projectiles are drawn in.
pub open spec fn projectile_color() -> ColorCode {
    ColorCode { foreground: Color::Yellow, background: Color::Black }
}

impl Projectile {
    /// The projectile that is not in play.
    pub open spec fn parked() -> Projectile {
        Projectile { x: OFF_BOARD, y: OFF_BOARD, dir: Direction::Right }
    }

    /// The projectile stands on a cell of the board.
    pub open spec fn on_board(self) -> bool {
        self.x < WIDTH && self.y < HEIGHT
    }

    /// The projectile one cell further along its direction. A coordinate that
    /// cannot go further stays as it is.
    pub open spec fn stepped(self) -> Projectile {
        match self.dir {
            Direction::Right => Projectile { x: up_one(self.x), ..self },
            Direction::Down => Projectile { y: up_one(self.y), ..self },
            Direction::Left => Projectile { x: down_one(self.x), ..self },
            Direction::Up => Projectile { y: down_one(self.y), ..self },
        }
    }

    /// The projectile cannot take its next step: the step would leave the range
    /// of coordinates, or the cell it leads to is closed.
    pub open spec fn blocked(self, walls: Occupancy) -> bool {
        self.stepped() == self || occupied_at(walls, self.stepped().y as int, self.stepped().x as int)
    }

    /// The projectile after one step on a board with walls: one cell further, or
    /// parked if the step is blocked.
    pub open spec fn advanced(self, walls: Occupancy) -> Projectile {
        if self.blocked(walls) {
            Projectile { x: OFF_BOARD, y: OFF_BOARD, ..self }
        } else {
            self.stepped()
        }
    }

    /// What a query for the cell at `row`, `col` reports: a cell outside the
    /// board counts as taken, a cell of the board is taken if the projectile
    /// stands on it.
    pub open spec fn covers(self, row: int, col: int) -> bool {
        !(0 <= row < HEIGHT && 0 <= col < WIDTH) || (self.x == col && self.y == row)
    }

    /// The projectile is drawn: it stands on the board, before the last column
    /// and above the last row.
    pub open spec fn visible(self) -> bool {
        self.x < WIDTH - 1 && self.y < HEIGHT - 1
    }

    /// `frame` after the projectile is drawn on it.
    pub open spec fn drawn_on(self, frame: Frame) -> Frame {
        if self.visible() {
            plotted(frame, PROJECTILE_GLYPH, self.x as int, self.y as int, projectile_color())
        } else {
            frame
        }
    }

    /// A projectile that is not in play.
    pub fn new() -> (projectile: Self)
        ensures
            projectile == Projectile::parked(),
    {
        Projectile { x: OFF_BOARD, y: OFF_BOARD, dir: Direction::Right }
    }

    /// Draws the projectile, unless it stands on the last column, on the last
    /// row or off the board.
    pub fn draw(&self, screen: &mut Screen)
        ensures
            final(screen)@ == self.drawn_on(old(screen)@),
    {
        if self.x < WIDTH - 1 && self.y < HEIGHT - 1 {
            screen.plot(
                PROJECTILE_GLYPH,
                self.x,
                self.y,
                ColorCode { foreground: Color::Yellow, background: Color::Black },
            );
        }
    }

    /// Puts the projectile at column `x`, row `y`.
    pub fn move_to(&mut self, x: usize, y: usize)
        ensures
            *final(self) == (Projectile { x, y, ..*old(self) }),
    {
        self.x = x;
        self.y = y;
    }

    /// Turns the projectile.
    pub fn change_dir(&mut self, dir: Direction)
        ensures
            *final(self) == (Projectile { dir, ..*old(self) }),
    {
        self.dir = dir;
    }

    /// Moves the projectile one cell along its direction, walls or not.
    pub fn momentum(&mut self)
        ensures
            *final(self) == old(self).stepped(),
    {
        match self.dir {
            Direction::Right => {
                self.x = self.x.saturating_add(1);
            },
            Direction::Down => {
                self.y = self.y.saturating_add(1);
            },
            Direction::Left => {
                self.x = self.x.saturating_sub(1);
            },
            Direction::Up => {
                self.y = self.y.saturating_sub(1);
            },
        }
    }

    /// Moves the projectile one cell along its direction on a board with walls.
    /// If that cell is closed, the projectile is taken out of play instead.
    pub fn advance(&mut self, walls: &Walls)
        ensures
            *final(self) == old(self).advanced(walls@),
    {
        let mut next = *self;
        next.momentum();
        if (next.x == self.x && next.y == self.y) || walls.occupied(next.y, next.x) {
            self.remove();
        } else {
            *self = next;
        }
    }

    /// Whether the cell at `row`, `col` is taken: a cell outside the board
    /// counts as taken, a cell of the board is taken if the projectile stands on
    /// it.
    pub fn occupied(&self, row: usize, col: usize) -> (taken: bool)
        ensures
            taken == self.covers(row as int, col as int),
    {
        if row >= HEIGHT || col >= WIDTH {
            true
        } else {
            self.x == col && self.y == row
        }
    }

    /// Takes the projectile out of play.
    pub fn remove(&mut self)
        ensures
            *final(self) == (Projectile { x: OFF_BOARD, y: OFF_BOARD, ..*old(self) }),
    {
        self.x = OFF_BOARD;
        self.y = OFF_BOARD;
    }
}

} // verus!
