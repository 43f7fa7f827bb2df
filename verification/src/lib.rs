//! A fixed-frame-rate arcade simulation: a player moves through a walled grid
//! while shooters spawn, drift and fire projectiles along the four cardinal
//! directions. The player loses when a projectile occupies its cell.
//!
//! The engine is one owned object with two entry points, [`Game::key`] and
//! [`Game::tick`]. It draws on a [`Screen`], a grid of glyph cells that the host
//! copies to its display.

pub mod config;
pub mod game;
pub mod input;
pub mod model;
pub mod player;
pub mod projectile;
pub mod random;
pub mod screen;
pub mod shooter;
pub mod theorems;
pub mod walls;

pub use crate::game::Game;
pub use crate::model::{GameView, Status};
pub use crate::input::{DecodedKey, Event, KeyCode};
pub use crate::player::Player;
pub use crate::projectile::{Direction, Projectile};
pub use crate::random::RandomSource;
pub use crate::screen::{Cell, Color, ColorCode, Screen};
pub use crate::shooter::Shooter;
pub use crate::walls::Walls;
