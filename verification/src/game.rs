//! The engine: one owned object that key events and ticks drive.

use vstd::prelude::*;

use crate::config::{
    DRAWN_PROJECTILES, HEIGHT, LABEL_COLUMN, MESSAGE_COLUMN, MOVE_INTERVAL, OVER_MESSAGE,
    PROJECTILE_CAPACITY, PROJECTILE_RING, SCORE_COLUMN, SCORE_LABEL, SEED, SHOOTER_CAPACITY,
    SHOOTER_RING, SPAWN_INTERVAL, SPAWN_ROW, WALLS, WIDTH,
};
use crate::input::{DecodedKey, KeyCode};
use crate::model::{projectiles_drawn, shooters_drawn, GameView, Status};
use crate::player::{Player, PLAYER_GLYPH};
use crate::projectile::Projectile;
use crate::random::RandomSource;
use crate::screen::{Color, ColorCode, Screen};
use crate::shooter::Shooter;
use crate::walls::{arena, occupied_at, Walls};

verus! {

/// The engine. It owns the player, the walls, the shooter and projectile slots
/// and the random source, and nothing of them is shared: its state changes
/// through its own methods only, and a host drives it with `key` and `tick`.
pub struct Game {
    player: Player,
    walls: Walls,
    tick_count: usize,
    shooters: [Shooter; SHOOTER_CAPACITY],
    projectiles: [Projectile; PROJECTILE_CAPACITY],
    proj_count: usize,
    shot_count: usize,
    rng: RandomSource,
    status: Status,
    active_shooters: usize,
}

impl View for Game {
    type V = GameView;

    closed spec fn view(&self) -> GameView {
        GameView {
            player: self.player,
            walls: self.walls@,
            tick_count: self.tick_count,
            shooters: self.shooters@,
            projectiles: self.projectiles@,
            proj_count: self.proj_count as nat,
            shot_count: self.shot_count as nat,
            draws: self.rng@,
            status: self.status,
            active_shooters: self.active_shooters as nat,
        }
    }
}

impl Game {
    #[verifier::type_invariant]
    spec fn in_range(self) -> bool {
        &&& self.walls@ == arena()
        &&& !occupied_at(self.walls@, self.player.y as int, self.player.x as int)
        &&& self.proj_count < PROJECTILE_RING
        &&& self.shot_count < SHOOTER_RING
        &&& self.active_shooters <= SHOOTER_CAPACITY
    }

    /// An engine in the initial state.
    pub fn new() -> (game: Self)
        ensures
            game@ == GameView::initial(),
            game@.wf(),
    {
        let player = Player::new();
        let walls = Walls::new(WALLS);
        proof {
            GameView::lemma_initial_wf();
        }
        let game = Game {
            player,
            walls,
            tick_count: 0,
            shooters: [Shooter::new();SHOOTER_CAPACITY],
            projectiles: [Projectile::new();PROJECTILE_CAPACITY],
            proj_count: 0,
            shot_count: 0,
            rng: RandomSource::new(SEED),
            status: Status::Normal,
            active_shooters: 0,
        };
        proof {
            assert(game@.shooters =~= GameView::initial().shooters);
            assert(game@.projectiles =~= GameView::initial().projectiles);
            assert(game@ =~= GameView::initial());
        }
        game
    }

    /// Puts the engine back into the initial state.
    pub fn reset_game(&mut self)
        ensures
            final(self)@ == GameView::initial(),
            final(self)@.wf(),
    {
        proof {
            use_type_invariant(&*self);
            GameView::lemma_initial_wf();
        }
        self.status = Status::Normal;
        self.player = Player::new();
        self.walls = Walls::new(WALLS);
        self.tick_count = 0;
        self.shooters = [Shooter::new();SHOOTER_CAPACITY];
        self.projectiles = [Projectile::new();PROJECTILE_CAPACITY];
        self.proj_count = 0;
        self.shot_count = 0;
        self.rng = RandomSource::new(SEED);
        self.active_shooters = 0;
        proof {
            assert(self@.shooters =~= GameView::initial().shooters);
            assert(self@.projectiles =~= GameView::initial().projectiles);
            assert(self@ =~= GameView::initial());
        }
    }

    /// Moves the projectile cursor one slot on; from the last slot of the ring
    /// it goes back to the first.
    pub fn add_proj_count(&mut self)
        ensures
            final(self)@ == (GameView { proj_count: old(self)@.next_proj_count(), ..old(self)@ }),
            final(self)@.wf(),
    {
        proof {
            use_type_invariant(&*self);
        }
        self.proj_count = (self.proj_count + 1) % PROJECTILE_RING;
    }

    /// Moves the shooter cursor one slot on; from the last slot of the ring it
    /// goes back to the first.
    pub fn add_shot_count(&mut self)
        ensures
            final(self)@ == (GameView { shot_count: old(self)@.next_shot_count(), ..old(self)@ }),
            final(self)@.wf(),
    {
        proof {
            use_type_invariant(&*self);
        }
        self.shot_count = (self.shot_count + 1) % SHOOTER_RING;
    }

    /// The player.
    pub fn player(&self) -> (player: Player)
        ensures
            player == self@.player,
    {
        self.player
    }

    /// The walls.
    pub fn walls(&self) -> (walls: Walls)
        ensures
            walls@ == self@.walls,
    {
        self.walls
    }

    /// Whether the game is running or lost.
    pub fn status(&self) -> (status: Status)
        ensures
            status == self@.status,
    {
        self.status
    }

    /// The clock, which is also the score.
    pub fn tick_count(&self) -> (ticks: usize)
        ensures
            ticks == self@.tick_count,
    {
        self.tick_count
    }

    /// The projectile slot that is written next.
    pub fn proj_count(&self) -> (cursor: usize)
        ensures
            cursor == self@.proj_count,
            cursor < PROJECTILE_RING,
    {
        proof {
            use_type_invariant(self);
        }
        self.proj_count
    }

    /// The shooter slot that is handed out next.
    pub fn shot_count(&self) -> (cursor: usize)
        ensures
            cursor == self@.shot_count,
            cursor < SHOOTER_RING,
    {
        proof {
            use_type_invariant(self);
        }
        self.shot_count
    }

    /// How many shooter slots, from the first on, hold a shooter that moves.
    pub fn active_shooters(&self) -> (count: usize)
        ensures
            count == self@.active_shooters,
            count <= SHOOTER_CAPACITY,
    {
        proof {
            use_type_invariant(self);
        }
        self.active_shooters
    }

    /// The shooter in slot `slot`, or `None` if there is no such slot.
    pub fn shooter(&self, slot: usize) -> (shooter: Option<Shooter>)
        ensures
            shooter == if slot < SHOOTER_CAPACITY {
                Some(self@.shooters[slot as int])
            } else {
                None
            },
    {
        if slot < SHOOTER_CAPACITY {
            Some(self.shooters[slot])
        } else {
            None
        }
    }

    /// The projectile in slot `slot`, or `None` if there is no such slot.
    pub fn projectile(&self, slot: usize) -> (projectile: Option<Projectile>)
        ensures
            projectile == if slot < PROJECTILE_CAPACITY {
                Some(self@.projectiles[slot as int])
            } else {
                None
            },
    {
        if slot < PROJECTILE_CAPACITY {
            Some(self.projectiles[slot])
        } else {
            None
        }
    }

    /// Writes `projectile` to the slot under the cursor and moves the cursor on.
    fn store(&mut self, projectile: Projectile)
        ensures
            final(self)@ == old(self)@.stored(projectile),
    {
        proof {
            use_type_invariant(&*self);
        }
        self.projectiles[self.proj_count] = projectile;
        self.add_proj_count();
        assert(self@ =~= old(self)@.stored(projectile));
    }

    /// The spawn phase of a tick.
    fn spawn_phase(&mut self)
        ensures
            final(self)@ == old(self)@.spawned(),
    {
        proof {
            use_type_invariant(&*self);
        }
        if self.tick_count % SPAWN_INTERVAL == 0 {
            let draw = self.rng.next_u32();
            let mut shooter = self.shooters[self.shot_count];
            shooter.move_to(Shooter::spawn_column(draw), SPAWN_ROW);
            self.shooters[self.shot_count] = shooter;
            self.add_shot_count();
            if self.active_shooters < SHOOTER_CAPACITY {
                self.active_shooters = self.active_shooters + 1;
            }
            assert(self@ =~= old(self)@.spawned());
        }
    }

    /// Lets every active shooter drift, in slot order.
    fn drift_phase(&mut self)
        ensures
            final(self)@ == old(self)@.drifted_upto(old(self)@.active_shooters),
    {
        proof {
            use_type_invariant(&*self);
        }
        let mut slot: usize = 0;
        proof {
            self@.lemma_drifted_step(0);
        }
        while slot < self.active_shooters
            invariant
                old(self)@.wf(),
                slot <= self.active_shooters <= SHOOTER_CAPACITY,
                self.active_shooters == old(self).active_shooters,
                self@ == old(self)@.drifted_upto(slot as nat),
            decreases self.active_shooters - slot,
        {
            proof {
                use_type_invariant(&*self);
                old(self)@.lemma_drifted_step(slot as nat);
            }
            let mut shooter = self.shooters[slot];
            if shooter.x > 2 {
                let draw = self.rng.next_u32();
                shooter.drift_by(draw);
            } else {
                shooter.drift_by(0);
            }
            self.shooters[slot] = shooter;
            slot = slot + 1;
        }
    }

    /// Gives every shooter slot its turn to fire, in slot order.
    fn fire_phase(&mut self)
        ensures
            final(self)@ == old(self)@.fired(),
    {
        let mut slot: usize = 0;
        proof {
            use_type_invariant(&*self);
            self@.lemma_fired_step(0);
        }
        while slot < SHOOTER_CAPACITY
            invariant
                old(self)@.wf(),
                slot <= SHOOTER_CAPACITY,
                self@ == old(self)@.fired_upto(slot as nat),
            decreases SHOOTER_CAPACITY - slot,
        {
            proof {
                old(self)@.lemma_fired_step(slot as nat);
            }
            let shooter = self.shooters[slot];
            if shooter.x < WIDTH && shooter.y < HEIGHT {
                self.store(shooter.shoot_down());
                self.store(shooter.shoot_left());
                self.store(shooter.shoot_up());
                self.store(shooter.shoot_right());
            }
            slot = slot + 1;
        }
    }

    /// The first slot of the window of projectiles that are drawn and tested.
    fn window_start(&self) -> (start: usize)
        ensures
            start == self@.window_start(),
            start <= self@.proj_count < PROJECTILE_RING,
    {
        proof {
            use_type_invariant(self);
        }
        if self.proj_count < DRAWN_PROJECTILES {
            0
        } else {
            self.proj_count - DRAWN_PROJECTILES
        }
    }

    /// Whether a projectile of the window hits the player.
    fn detect_hit(&self) -> (hit: bool)
        ensures
            hit == self@.hit(),
    {
        let start = self.window_start();
        let mut slot: usize = start;
        let mut hit = false;
        while slot < self.proj_count
            invariant
                start == self@.window_start(),
                start <= slot <= self.proj_count < PROJECTILE_RING,
                hit == self@.hit_before(slot as int),
            decreases self.proj_count - slot,
        {
            proof {
                self@.lemma_hit_before_step(slot as int);
            }
            if self.player.proj_collision(&self.projectiles[slot]) {
                hit = true;
            }
            slot = slot + 1;
        }
        hit
    }

    /// Draws the engine's state: the walls, the player, the shooters, the
    /// projectiles of the window, and over the top row the score line. Nothing
    /// of what the surface showed before is left.
    pub fn draw(&self, screen: &mut Screen)
        ensures
            final(screen)@ == self@.frame(),
    {
        self.walls.draw(screen);
        screen.plot(
            PLAYER_GLYPH,
            self.player.x,
            self.player.y,
            ColorCode { foreground: Color::Green, background: Color::Black },
        );
        let ghost base = screen@;
        let mut slot: usize = 0;
        while slot < SHOOTER_CAPACITY
            invariant
                slot <= SHOOTER_CAPACITY,
                screen@ == shooters_drawn(base, self.shooters@, slot as nat),
            decreases SHOOTER_CAPACITY - slot,
        {
            self.shooters[slot].draw(screen);
            slot = slot + 1;
        }
        let ghost manned = screen@;
        let start = self.window_start();
        let mut slot: usize = start;
        while slot < self.proj_count
            invariant
                start <= slot <= self.proj_count < PROJECTILE_RING,
                screen@ == projectiles_drawn(manned, self.projectiles@, start as nat, slot as nat),
            decreases self.proj_count - slot,
        {
            self.projectiles[slot].draw(screen);
            slot = slot + 1;
        }
        let white = ColorCode { foreground: Color::White, background: Color::Black };
        let score = match self.status {
            Status::Normal => self.tick_count,
            Status::Over => self.tick_count.saturating_add(1),
        };
        screen.plot_num(score, SCORE_COLUMN, 0, white);
        screen.plot_str(SCORE_LABEL, LABEL_COLUMN, 0, white);
        match self.status {
            Status::Normal => {},
            Status::Over => {
                screen.plot_str(OVER_MESSAGE, MESSAGE_COLUMN, 0, white);
            },
        }
    }

    /// Advances the game by one tick and draws the result. In order: on a clock
    /// that is a multiple of the spawn interval a shooter is spawned; on a clock
    /// that the tick brings to a multiple of the move interval the active
    /// shooters drift; every shooter on the board fires in the four directions;
    /// the game is over if a projectile of the window hits the player. The clock
    /// advances unless the game is over when the tick ends.
    pub fn tick(&mut self, screen: &mut Screen)
        ensures
            final(self)@ == old(self)@.ticked(),
            final(self)@.wf(),
            final(screen)@ == final(self)@.frame(),
    {
        proof {
            use_type_invariant(&*self);
            self@.lemma_phases_frame();
            self@.lemma_ticked_frame();
        }
        self.spawn_phase();
        let clock = self.tick_count.saturating_add(1);
        if clock % MOVE_INTERVAL == 0 {
            self.drift_phase();
        }
        self.fire_phase();
        let ghost moved = self@;
        let hit = self.detect_hit();
        proof {
            use_type_invariant(&*self);
        }
        if hit {
            self.status = Status::Over;
        }
        match self.status {
            Status::Normal => {
                self.tick_count = clock;
            },
            Status::Over => {},
        }
        assert(self@ == if hit || old(self)@.status is Over {
            GameView { status: Status::Over, ..moved }
        } else {
            GameView { tick_count: clock, ..moved }
        });
        self.draw(screen);
    }

    /// Handles one key event. A restart key puts the engine back into the
    /// initial state: `R` by its code while the game runs, `S` by its code or
    /// the character `s` once it is over. While the game runs an arrow key
    /// moves the player one cell, unless that cell is closed: then the player
    /// stays where it is. Every other event is ignored.
    pub fn key(&mut self, key: DecodedKey)
        ensures
            final(self)@ == old(self)@.keyed(key),
            final(self)@.wf(),
    {
        proof {
            use_type_invariant(&*self);
        }
        match self.status {
            Status::Normal => match key {
                DecodedKey::RawKey(code) => {
                    let mut future = self.player;
                    match code {
                        KeyCode::ArrowDown => {
                            future.down();
                        },
                        KeyCode::ArrowLeft => {
                            future.left();
                        },
                        KeyCode::ArrowRight => {
                            future.right();
                        },
                        KeyCode::ArrowUp => {
                            future.up();
                        },
                        KeyCode::R => {
                            self.reset_game();
                            return;
                        },
                        _ => {},
                    }
                    if !future.is_colliding(&self.walls) {
                        self.player = future;
                    }
                    assert(self@ =~= old(self)@.keyed(key));
                },
                DecodedKey::Unicode(_) => {},
            },
            Status::Over => {
                match key {
                    DecodedKey::RawKey(KeyCode::S) | DecodedKey::Unicode('s') => self.reset_game(),
                    _ => {},
                }
            },
        }
    }
}

} // verus!
