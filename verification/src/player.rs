//! The player: the one entity that key events steer.

use vstd::prelude::*;

use crate::config::{HEIGHT, WIDTH};
use crate::projectile::{down_one, up_one, Projectile};
use crate::walls::{occupied_at, Walls};

verus! {

/// The glyph the player is drawn with.
pub const PLAYER_GLYPH: u8 = 0x2a;

/// The player's position.
#[derive(Clone, Copy, Debug, PartialEq, Eq, Structural)]
pub struct Player {
    pub x: usize,
    pub y: usize,
}

impl Player {
    /// The player at the center of the board.
    pub open spec fn centered() -> Player {
        Player { x: (WIDTH / 2) as usize, y: (HEIGHT / 2) as usize }
    }

    /// The player stands on a cell of the board.
    pub open spec fn on_board(self) -> bool {
        self.x < WIDTH && self.y < HEIGHT
    }

    /// A player at the center of the board.
    pub fn new() -> (player: Self)
        ensures
            player == Player::centered(),
    {
        Player { x: WIDTH / 2, y: HEIGHT / 2 }
    }

    /// Whether the player's cell is closed: it holds a wall or lies outside the
    /// board.
    pub fn is_colliding(&self, walls: &Walls) -> (colliding: bool)
        ensures
            colliding == occupied_at(walls@, self.y as int, self.x as int),
    {
        walls.occupied(self.y, self.x)
    }

    /// Whether `proj` hits the player. For a player on the board that is the
    /// case exactly if both stand on the same cell.
    pub fn proj_collision(&self, proj: &Projectile) -> (hit: bool)
        ensures
            hit == proj.covers(self.y as int, self.x as int),
            self.on_board() ==> hit == (proj.x == self.x && proj.y == self.y),
    {
        proj.occupied(self.y, self.x)
    }

    /// One row down. Nothing holds the player on the board: the caller tests
    /// the new cell.
    pub fn down(&mut self)
        ensures
            *final(self) == (Player { y: up_one(old(self).y), ..*old(self) }),
    {
        self.y = self.y.saturating_add(1);
    }

    /// One row up; in the top row the player stays.
    pub fn up(&mut self)
        ensures
            *final(self) == (Player { y: down_one(old(self).y), ..*old(self) }),
    {
        self.y = self.y.saturating_sub(1);
    }

    /// One column to the left; in the first column the player stays.
    pub fn left(&mut self)
        ensures
            *final(self) == (Player { x: down_one(old(self).x), ..*old(self) }),
    {
        self.x = self.x.saturating_sub(1);
    }

    /// One column to the right. Nothing holds the player on the board: the
    /// caller tests the new cell.
    pub fn right(&mut self)
        ensures
            *final(self) == (Player { x: up_one(old(self).x), ..*old(self) }),
    {
        self.x = self.x.saturating_add(1);
    }
}

} // verus!
