//! Shooters: spawned hazards that fire projectiles in the four directions.

use vstd::prelude::*;

use crate::config::{HEIGHT, OFF_BOARD, WIDTH};
use crate::projectile::{down_one, up_one, Direction, Projectile};
use crate::random::RandomSource;
use crate::screen::{plotted, Color, ColorCode, Frame, Screen};
use crate::walls::{occupied_at, Occupancy, Walls};

verus! {

/// The glyph shooters are drawn with.
pub const SHOOTER_GLYPH: u8 = 0x53;

/// A shooter's position. One that is not in play is parked off the board.
#[derive(Clone, Copy, Debug, PartialEq, Eq, Structural)]
pub struct Shooter {
    pub x: usize,
    pub y: usize,
}

/// The colors shooters are drawn in.
pub open spec fn shooter_color() -> ColorCode {
    ColorCode { foreground: Color::Magenta, background: Color::Black }
}

/// The column at which the shooter that `draw` was drawn for enters the board:
/// any column but the first.
pub open spec fn spawn_column_of(draw: u32) -> usize {
    (1 + draw as int % (WIDTH - 1)) as usize
}

impl Shooter {
    /// The shooter that is not in play.
    pub open spec fn parked() -> Shooter {
        Shooter { x: OFF_BOARD, y: OFF_BOARD }
    }

    /// The shooter stands on a cell of the board.
    pub open spec fn on_board(self) -> bool {
        self.x < WIDTH && self.y < HEIGHT
    }

    /// The cell that a shift for the value `draw` leads to: one cell to the
    /// right, down, to the left or up, by the remainder of `draw` modulo four.
    pub open spec fn shift_target(self, draw: u32) -> Shooter {
        if draw % 4 == 0 {
            Shooter { x: up_one(self.x), ..self }
        } else if draw % 4 == 1 {
            Shooter { y: up_one(self.y), ..self }
        } else if draw % 4 == 2 {
            Shooter { x: down_one(self.x), ..self }
        } else {
            Shooter { y: down_one(self.y), ..self }
        }
    }

    /// The shooter after a shift for the value `draw`: on the target cell if that
    /// cell is open, where it was if not.
    pub open spec fn shifted(self, draw: u32, walls: Occupancy) -> Shooter {
        let target = self.shift_target(draw);
        if occupied_at(walls, target.y as int, target.x as int) {
            self
        } else {
            target
        }
    }

    /// A drift of this shooter takes a random value: it stands beyond the
    /// third column.
    pub open spec fn drift_draws(self) -> bool {
        self.x > 2
    }

    /// The shooter after a drift: one row down and one column to the side. Up to
    /// the third column the side is the right; beyond it an even `draw` sends
    /// the shooter left and an odd one right.
    pub open spec fn drifted(self, draw: u32) -> Shooter {
        if self.drift_draws() && draw % 2 == 0 {
            Shooter { x: down_one(self.x), y: up_one(self.y) }
        } else {
            Shooter { x: up_one(self.x), y: up_one(self.y) }
        }
    }

    /// `frame` after the shooter is drawn on it.
    pub open spec fn drawn_on(self, frame: Frame) -> Frame {
        plotted(frame, SHOOTER_GLYPH, self.x as int, self.y as int, shooter_color())
    }

    /// The projectile this shooter fires to the right.
    pub open spec fn shot_right(self) -> Projectile {
        Projectile { x: up_one(self.x), y: self.y, dir: Direction::Right }
    }

    /// The projectile this shooter fires downwards.
    pub open spec fn shot_down(self) -> Projectile {
        Projectile { x: self.x, y: up_one(self.y), dir: Direction::Down }
    }

    /// The projectile this shooter fires to the left.
    pub open spec fn shot_left(self) -> Projectile {
        Projectile { x: down_one(self.x), y: self.y, dir: Direction::Left }
    }

    /// The projectile this shooter fires upwards.
    pub open spec fn shot_up(self) -> Projectile {
        Projectile { x: self.x, y: down_one(self.y), dir: Direction::Up }
    }

    /// A shooter that is not in play.
    pub fn new() -> (shooter: Self)
        ensures
            shooter == Shooter::parked(),
    {
        Shooter { x: OFF_BOARD, y: OFF_BOARD }
    }

    /// Puts the shooter at column `x`, row `y`.
    pub fn move_to(&mut self, x: usize, y: usize)
        ensures
            *final(self) == (Shooter { x, y }),
    {
        self.x = x;
        self.y = y;
    }

    /// A projectile one cell to the right of the shooter, heading right.
    pub fn shoot_right(&self) -> (projectile: Projectile)
        ensures
            projectile == self.shot_right(),
    {
        let mut proj = Projectile::new();
        proj.move_to(self.x.saturating_add(1), self.y);
        proj.change_dir(Direction::Right);
        proj
    }

    /// A projectile one cell below the shooter, heading down.
    pub fn shoot_down(&self) -> (projectile: Projectile)
        ensures
            projectile == self.shot_down(),
    {
        let mut proj = Projectile::new();
        proj.move_to(self.x, self.y.saturating_add(1));
        proj.change_dir(Direction::Down);
        proj
    }

    /// A projectile one cell to the left of the shooter, heading left. In the
    /// first column it starts on the shooter's own cell.
    pub fn shoot_left(&self) -> (projectile: Projectile)
        ensures
            projectile == self.shot_left(),
    {
        let mut proj = Projectile::new();
        proj.move_to(self.x.saturating_sub(1), self.y);
        proj.change_dir(Direction::Left);
        proj
    }

    /// A projectile one cell above the shooter, heading up. In the top row it
    /// starts on the shooter's own cell.
    pub fn shoot_up(&self) -> (projectile: Projectile)
        ensures
            projectile == self.shot_up(),
    {
        let mut proj = Projectile::new();
        proj.move_to(self.x, self.y.saturating_sub(1));
        proj.change_dir(Direction::Up);
        proj
    }

    /// Draws the shooter if it stands on the board.
    pub fn draw(&self, screen: &mut Screen)
        ensures
            final(screen)@ == self.drawn_on(old(screen)@),
    {
        screen.plot(
            SHOOTER_GLYPH,
            self.x,
            self.y,
            ColorCode { foreground: Color::Magenta, background: Color::Black },
        );
    }

    /// The column at which the shooter that `draw` was drawn for enters the
    /// board.
    pub fn spawn_column(draw: u32) -> (column: usize)
        ensures
            column == spawn_column_of(draw),
            1 <= column < WIDTH,
    {
        1 + (draw % ((WIDTH - 1) as u32)) as usize
    }

    /// Moves the shooter one cell in the direction that `draw` picks, if that
    /// cell is open; it stays where it is if not.
    pub fn shift_by(&mut self, draw: u32, walls: Walls)
        ensures
            *final(self) == old(self).shifted(draw, walls@),
    {
        let pick = draw % 4;
        let mut target = *self;
        if pick == 0 {
            target.x = self.x.saturating_add(1);
        } else if pick == 1 {
            target.y = self.y.saturating_add(1);
        } else if pick == 2 {
            target.x = self.x.saturating_sub(1);
        } else {
            target.y = self.y.saturating_sub(1);
        }
        if !walls.occupied(target.y, target.x) {
            *self = target;
        }
    }

    /// Draws one value from `rng` and moves the shooter one cell in the
    /// direction it picks, if that cell is open. There is no second try.
    pub fn shift(&mut self, rng: &mut RandomSource, walls: Walls)
        ensures
            *final(self) == old(self).shifted(old(rng)@(0), walls@),
            final(rng)@ == crate::random::draws_after(old(rng)@, 1),
    {
        let draw = rng.next_u32();
        self.shift_by(draw, walls);
    }

    /// Moves the shooter one row down and one column to the side that `draw`
    /// picks. Up to the third column the side is always the right.
    pub fn drift_by(&mut self, draw: u32)
        ensures
            *final(self) == old(self).drifted(draw),
    {
        if self.x > 2 && draw % 2 == 0 {
            self.move_to(self.x - 1, self.y.saturating_add(1));
        } else {
            self.move_to(self.x.saturating_add(1), self.y.saturating_add(1));
        }
    }
}

} // verus!
