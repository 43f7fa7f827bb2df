//! The engine's state as plain values, and what a key event and a tick make of
//! it.

use vstd::prelude::*;
use vstd::string::StringSliceAdditionalSpecFns;

use crate::config::{
    DRAWN_PROJECTILES, HEIGHT, LABEL_COLUMN, MESSAGE_COLUMN, MOVE_INTERVAL, OVER_MESSAGE,
    PROJECTILE_CAPACITY, PROJECTILE_RING, SCORE_COLUMN, SCORE_LABEL, SEED, SHOOTER_CAPACITY,
    SHOOTER_RING, SPAWN_INTERVAL, SPAWN_ROW, WIDTH,
};
use crate::input::{DecodedKey, Event, KeyCode};
use crate::player::{Player, PLAYER_GLYPH};
use crate::projectile::{down_one, up_one, Projectile};
use crate::random::{draws_after, seeded_draws, Draws};
use crate::screen::{plotted, plotted_number, plotted_text, Color, ColorCode, Frame};
use crate::shooter::{spawn_column_of, Shooter};
use crate::walls::{arena, lemma_arena_enclosed, occupied_at, wall_frame, Occupancy};

verus! {

/// Whether the game is running or lost.
#[derive(Clone, Copy, Debug, PartialEq, Eq, Structural)]
pub enum Status {
    Normal,
    Over,
}

/// The colors the player is drawn in.
pub open spec fn player_color() -> ColorCode {
    ColorCode { foreground: Color::Green, background: Color::Black }
}

/// The colors of the score line.
pub open spec fn hud_color() -> ColorCode {
    ColorCode { foreground: Color::White, background: Color::Black }
}

/// `frame` after the first `upto` of `shooters` are drawn on it, in slot order.
pub open spec fn shooters_drawn(frame: Frame, shooters: Seq<Shooter>, upto: nat) -> Frame
    decreases upto,
{
    if upto == 0 {
        frame
    } else {
        shooters[upto - 1].drawn_on(shooters_drawn(frame, shooters, (upto - 1) as nat))
    }
}

/// `frame` after the projectiles in the slots from `from` up to, not including,
/// `upto` are drawn on it, in slot order.
pub open spec fn projectiles_drawn(
    frame: Frame,
    projectiles: Seq<Projectile>,
    from: nat,
    upto: nat,
) -> Frame
    decreases upto,
{
    if upto <= from {
        frame
    } else {
        projectiles[upto - 1].drawn_on(
            projectiles_drawn(frame, projectiles, from, (upto - 1) as nat),
        )
    }
}

/// The number of random values that a drift of the first `upto` of `shooters`
/// takes: one for each shooter beyond the third column.
pub open spec fn drift_draws_taken(shooters: Seq<Shooter>, upto: nat) -> nat
    decreases upto,
{
    if upto == 0 {
        0
    } else if shooters[upto - 1].drift_draws() {
        drift_draws_taken(shooters, (upto - 1) as nat) + 1
    } else {
        drift_draws_taken(shooters, (upto - 1) as nat)
    }
}

/// The four projectiles that `shooter` fires in one tick: down, left, up and
/// right, in that order.
pub open spec fn volley_of(shooter: Shooter) -> Seq<Projectile> {
    seq![shooter.shot_down(), shooter.shot_left(), shooter.shot_up(), shooter.shot_right()]
}

/// The projectiles that the first `upto` of `shooters` fire in one tick, in slot
/// order. Only a shooter on the board fires.
pub open spec fn volleys(shooters: Seq<Shooter>, upto: nat) -> Seq<Projectile>
    decreases upto,
{
    if upto == 0 {
        Seq::empty()
    } else if shooters[upto - 1].on_board() {
        volleys(shooters, (upto - 1) as nat) + volley_of(shooters[upto - 1])
    } else {
        volleys(shooters, (upto - 1) as nat)
    }
}

/// All that the engine holds, as plain values.
#[verifier::ext_equal]
pub struct GameView {
    pub player: Player,
    pub walls: Occupancy,
    /// The clock, which is also the score.
    pub tick_count: usize,
    pub shooters: Seq<Shooter>,
    pub projectiles: Seq<Projectile>,
    /// The projectile slot that is written next.
    pub proj_count: nat,
    /// The shooter slot that is handed out next.
    pub shot_count: nat,
    /// The values that the random source will yield.
    pub draws: Draws,
    pub status: Status,
    /// How many shooter slots, from the first on, hold a shooter that moves.
    pub active_shooters: nat,
}

impl GameView {
    /// The walls are those of the arena, the player stands on an open cell, the
    /// slot arrays have their capacity and the counters stay within it.
    pub open spec fn wf(self) -> bool {
        &&& self.walls == arena()
        &&& !occupied_at(self.walls, self.player.y as int, self.player.x as int)
        &&& self.shooters.len() == SHOOTER_CAPACITY
        &&& self.projectiles.len() == PROJECTILE_CAPACITY
        &&& self.proj_count < PROJECTILE_RING
        &&& self.shot_count < SHOOTER_RING
        &&& self.active_shooters <= SHOOTER_CAPACITY
    }

    /// The state in which every engine starts, and to which a reset leads: the
    /// player at the center, the status `Normal`, the clock at zero, every
    /// shooter and projectile out of play, and the random source freshly seeded.
    pub open spec fn initial() -> GameView {
        GameView {
            player: Player::centered(),
            walls: arena(),
            tick_count: 0,
            shooters: Seq::new(SHOOTER_CAPACITY as nat, |slot: int| Shooter::parked()),
            projectiles: Seq::new(PROJECTILE_CAPACITY as nat, |slot: int| Projectile::parked()),
            proj_count: 0,
            shot_count: 0,
            draws: seeded_draws(SEED),
            status: Status::Normal,
            active_shooters: 0,
        }
    }

    /// The projectile cursor one slot on, back at the first slot after the last.
    pub open spec fn next_proj_count(self) -> nat {
        (self.proj_count + 1) % (PROJECTILE_RING as nat)
    }

    /// The shooter cursor one slot on, back at the first slot after the last.
    pub open spec fn next_shot_count(self) -> nat {
        (self.shot_count + 1) % (SHOOTER_RING as nat)
    }

    /// The state after `projectile` is written to the slot under the cursor and
    /// the cursor has moved on. What the slot held before is gone.
    pub open spec fn stored(self, projectile: Projectile) -> GameView {
        GameView {
            projectiles: self.projectiles.update(self.proj_count as int, projectile),
            proj_count: self.next_proj_count(),
            ..self
        }
    }

    /// The state after the spawn phase of a tick. On a clock that is a multiple
    /// of the spawn interval, the slot under the shooter cursor gets a shooter
    /// on the spawn row, at the column that the next random value picks.
    pub open spec fn spawned(self) -> GameView {
        if self.tick_count % SPAWN_INTERVAL == 0 {
            GameView {
                shooters: self.shooters.update(
                    self.shot_count as int,
                    Shooter { x: spawn_column_of((self.draws)(0)), y: SPAWN_ROW },
                ),
                shot_count: self.next_shot_count(),
                active_shooters: if self.active_shooters < SHOOTER_CAPACITY {
                    self.active_shooters + 1
                } else {
                    self.active_shooters
                },
                draws: draws_after(self.draws, 1),
                ..self
            }
        } else {
            self
        }
    }

    /// The clock of the tick that is under way: one more than the stored clock.
    pub open spec fn clock(self) -> usize {
        up_one(self.tick_count)
    }

    /// The state after the shooters in the first `count` slots have drifted. The
    /// shooters take their random values in slot order: each one beyond the
    /// third column takes the next value, the others take none.
    #[verifier::opaque]
    pub open spec fn drifted_upto(self, count: nat) -> GameView {
        GameView {
            shooters: Seq::new(
                self.shooters.len(),
                |slot: int|
                    if slot < count {
                        self.shooters[slot].drifted(
                            (self.draws)(drift_draws_taken(self.shooters, slot as nat)),
                        )
                    } else {
                        self.shooters[slot]
                    },
            ),
            draws: draws_after(self.draws, drift_draws_taken(self.shooters, count)),
            ..self
        }
    }

    /// The state after the movement phase of a tick: on a clock that is a
    /// multiple of the move interval every active shooter drifts.
    pub open spec fn drifted(self) -> GameView {
        if self.clock() % MOVE_INTERVAL == 0 {
            self.drifted_upto(self.active_shooters)
        } else {
            self
        }
    }

    /// The state after `shooter` has fired: four projectiles written to the
    /// ring, heading down, left, up and right, in that order.
    pub open spec fn volley(self, shooter: Shooter) -> GameView {
        self.stored(shooter.shot_down()).stored(shooter.shot_left()).stored(
            shooter.shot_up(),
        ).stored(shooter.shot_right())
    }

    /// The state after `shots` are written to the ring, first to last.
    pub open spec fn stored_all(self, shots: Seq<Projectile>) -> GameView
        decreases shots.len(),
    {
        if shots.len() == 0 {
            self
        } else {
            self.stored_all(shots.drop_last()).stored(shots.last())
        }
    }

    /// The state after the shooters in the first `count` slots have had their
    /// turn to fire: their volleys are written to the ring.
    pub open spec fn fired_upto(self, count: nat) -> GameView {
        self.stored_all(volleys(self.shooters, count))
    }

    /// The state after the firing phase of a tick.
    pub open spec fn fired(self) -> GameView {
        self.fired_upto(SHOOTER_CAPACITY as nat)
    }

    /// The first slot of the window of projectiles that are drawn and tested
    /// against the player. The window ends at the cursor and reaches back over
    /// the most recently written slots, but never around the end of the ring.
    pub open spec fn window_start(self) -> nat {
        if self.proj_count < DRAWN_PROJECTILES {
            0
        } else {
            (self.proj_count - DRAWN_PROJECTILES) as nat
        }
    }

    /// The projectile in slot `slot` hits the player.
    pub open spec fn hit_by(self, slot: int) -> bool {
        self.projectiles[slot].covers(self.player.y as int, self.player.x as int)
    }

    /// A projectile of the window, in a slot before `upto`, hits the player.
    pub open spec fn hit_before(self, upto: int) -> bool {
        exists|slot: int| self.window_start() <= slot < upto && #[trigger] self.hit_by(slot)
    }

    /// A projectile of the window hits the player.
    pub open spec fn hit(self) -> bool {
        self.hit_before(self.proj_count as int)
    }

    /// One more slot adds at most the hit of the projectile in that slot.
    pub proof fn lemma_hit_before_step(self, upto: int)
        requires
            self.window_start() <= upto,
        ensures
            self.hit_before(upto + 1) == (self.hit_before(upto) || self.hit_by(upto)),
    {
        if self.hit_before(upto + 1) {
            let slot = choose|slot: int|
                self.window_start() <= slot < upto + 1 && #[trigger] self.hit_by(slot);
            if slot < upto {
                assert(self.hit_before(upto));
            }
        }
        if self.hit_before(upto) {
            let slot = choose|slot: int|
                self.window_start() <= slot < upto && #[trigger] self.hit_by(slot);
            assert(self.hit_by(slot));
        }
    }

    /// The initial state is well formed: the center of the arena is an open cell.
    pub proof fn lemma_initial_wf()
        ensures
            GameView::initial().wf(),
    {
        lemma_arena_enclosed();
        let row = (HEIGHT / 2) as int;
        let col = (WIDTH / 2) as int;
        assert(arena()[row][col] == crate::walls::on_border(row, col));
    }

    /// Spawning keeps the state well formed.
    pub proof fn lemma_spawned_wf(self)
        requires
            self.wf(),
        ensures
            self.spawned().wf(),
    {
    }

    /// Drifting changes the shooters and the random source and nothing else, and
    /// it keeps the state well formed.
    pub proof fn lemma_drifted_frame(self, count: nat)
        requires
            self.wf(),
        ensures
            self.drifted_upto(count).wf(),
            self.drifted_upto(count) == (GameView {
                shooters: self.drifted_upto(count).shooters,
                draws: self.drifted_upto(count).draws,
                ..self
            }),
    {
        reveal(GameView::drifted_upto);
    }

    /// Drifting keeps the state well formed. Nothing has drifted before the
    /// first slot, and each further slot adds the drift of its shooter, by the
    /// value that the source is then to yield.
    pub proof fn lemma_drifted_step(self, count: nat)
        requires
            self.wf(),
            count < SHOOTER_CAPACITY,
        ensures
            self.drifted_upto(0) == self,
            self.drifted_upto(count).wf(),
            self.drifted_upto(count + 1).wf(),
            self.drifted_upto(count + 1) == ({
                let before = self.drifted_upto(count);
                let shooter = before.shooters[count as int];
                GameView {
                    shooters: before.shooters.update(
                        count as int,
                        shooter.drifted((before.draws)(0)),
                    ),
                    draws: if shooter.drift_draws() {
                        draws_after(before.draws, 1)
                    } else {
                        before.draws
                    },
                    ..before
                }
            }),
    {
        reveal(GameView::drifted_upto);
        let before = self.drifted_upto(count);
        let shooter = before.shooters[count as int];
        let taken = drift_draws_taken(self.shooters, count);
        let stepped = GameView {
            shooters: before.shooters.update(count as int, shooter.drifted((before.draws)(0))),
            draws: if shooter.drift_draws() {
                draws_after(before.draws, 1)
            } else {
                before.draws
            },
            ..before
        };
        assert(self.drifted_upto(0).shooters =~= self.shooters);
        assert(self.drifted_upto(0).draws =~= self.draws);
        assert(shooter == self.shooters[count as int]);
        assert((before.draws)(0) == (self.draws)(taken));
        assert(stepped.shooters =~= self.drifted_upto(count + 1).shooters);
        assert(stepped.draws =~= self.drifted_upto(count + 1).draws);
    }

    /// Writing projectiles changes the projectile slots and their cursor and
    /// nothing else, and keeps the state well formed.
    pub proof fn lemma_stored_all_frame(self, shots: Seq<Projectile>)
        requires
            self.wf(),
        ensures
            self.stored_all(shots).wf(),
            self.stored_all(shots) == (GameView {
                projectiles: self.stored_all(shots).projectiles,
                proj_count: self.stored_all(shots).proj_count,
                ..self
            }),
        decreases shots.len(),
    {
        if shots.len() > 0 {
            self.lemma_stored_all_frame(shots.drop_last());
        }
    }

    /// Writing one run of projectiles after another is writing the two runs
    /// joined.
    pub proof fn lemma_stored_all_joins(self, first: Seq<Projectile>, second: Seq<Projectile>)
        ensures
            self.stored_all(first + second) == self.stored_all(first).stored_all(second),
        decreases second.len(),
    {
        if second.len() == 0 {
            assert(first + second =~= first);
        } else {
            self.lemma_stored_all_joins(first, second.drop_last());
            assert((first + second).drop_last() =~= first + second.drop_last());
            assert((first + second).last() == second.last());
        }
    }

    /// Writing the volley of a shooter is writing its four projectiles one by
    /// one.
    pub proof fn lemma_volley_stored(self, shooter: Shooter)
        ensures
            self.stored_all(volley_of(shooter)) == self.volley(shooter),
    {
        let four = volley_of(shooter);
        let three = four.drop_last();
        let two = three.drop_last();
        let one = two.drop_last();
        assert(one.drop_last() =~= Seq::<Projectile>::empty());
        assert(self.stored_all(one.drop_last()) == self);
        assert(self.stored_all(one) == self.stored(shooter.shot_down()));
        assert(self.stored_all(two) == self.stored_all(one).stored(shooter.shot_left()));
        assert(self.stored_all(three) == self.stored_all(two).stored(shooter.shot_up()));
        assert(self.stored_all(four) == self.stored_all(three).stored(shooter.shot_right()));
    }

    /// Firing keeps the state well formed and changes the projectile slots and
    /// their cursor only. Nothing is fired before the first slot, and each
    /// further slot adds the volley of its shooter, if that one is on the board.
    pub proof fn lemma_fired_step(self, count: nat)
        requires
            self.wf(),
        ensures
            self.fired_upto(0) == self,
            self.fired_upto(count).wf(),
            self.fired_upto(count) == (GameView {
                projectiles: self.fired_upto(count).projectiles,
                proj_count: self.fired_upto(count).proj_count,
                ..self
            }),
            self.fired_upto(count + 1) == if self.shooters[count as int].on_board() {
                self.fired_upto(count).volley(self.shooters[count as int])
            } else {
                self.fired_upto(count)
            },
    {
        let shooter = self.shooters[count as int];
        self.lemma_stored_all_frame(volleys(self.shooters, count));
        if shooter.on_board() {
            self.lemma_stored_all_joins(volleys(self.shooters, count), volley_of(shooter));
            self.fired_upto(count).lemma_volley_stored(shooter);
        }
    }

    /// The phases of a tick that come before the test for a hit keep the state
    /// well formed, and they change neither the player, the walls, the status
    /// nor the clock.
    pub proof fn lemma_phases_frame(self)
        requires
            self.wf(),
        ensures
            self.spawned().drifted().fired().wf(),
            self.spawned().drifted().fired().player == self.player,
            self.spawned().drifted().fired().walls == self.walls,
            self.spawned().drifted().fired().status == self.status,
            self.spawned().drifted().fired().tick_count == self.tick_count,
    {
        let spawned = self.spawned();
        self.lemma_spawned_wf();
        spawned.lemma_drifted_frame(spawned.active_shooters);
        let drifted = spawned.drifted();
        drifted.lemma_fired_step(SHOOTER_CAPACITY as nat);
    }

    /// A tick keeps the state well formed. It changes neither the player nor the
    /// walls, and it never turns a lost game into a running one.
    pub proof fn lemma_ticked_frame(self)
        requires
            self.wf(),
        ensures
            self.ticked().wf(),
            self.ticked().player == self.player,
            self.ticked().walls == self.walls,
            self.status is Over ==> self.ticked().status is Over,
            self.ticked().status is Over ==> self.ticked().tick_count == self.tick_count,
            self.ticked().status is Normal ==> self.ticked().tick_count == self.clock(),
    {
        self.lemma_phases_frame();
    }

    /// The state after one tick: spawn, move, fire, then test for a hit. The
    /// clock advances unless the game is over when the tick ends.
    pub open spec fn ticked(self) -> GameView {
        let moved = self.spawned().drifted().fired();
        if moved.hit() || self.status is Over {
            GameView { status: Status::Over, ..moved }
        } else {
            GameView { tick_count: self.clock(), ..moved }
        }
    }

    /// The cell that the key with code `code` steers the player to.
    pub open spec fn steer_target(self, code: KeyCode) -> Player {
        match code {
            KeyCode::ArrowDown => Player { y: up_one(self.player.y), ..self.player },
            KeyCode::ArrowUp => Player { y: down_one(self.player.y), ..self.player },
            KeyCode::ArrowLeft => Player { x: down_one(self.player.x), ..self.player },
            KeyCode::ArrowRight => Player { x: up_one(self.player.x), ..self.player },
            _ => self.player,
        }
    }

    /// The state after the key with code `code` has steered the player: the
    /// player stands on the target cell if that cell is open, and nothing has
    /// changed if it is not.
    pub open spec fn steered(self, code: KeyCode) -> GameView {
        let target = self.steer_target(code);
        if occupied_at(self.walls, target.y as int, target.x as int) {
            self
        } else {
            GameView { player: target, ..self }
        }
    }

    /// `key` restarts the game in the status `status`.
    pub open spec fn restarts(status: Status, key: DecodedKey) -> bool {
        match status {
            Status::Normal => key == DecodedKey::RawKey(KeyCode::R),
            Status::Over => key == DecodedKey::RawKey(KeyCode::S) || key == DecodedKey::Unicode(
                's',
            ),
        }
    }

    /// The state after a key event. A restart key leads to the initial state.
    /// While the game runs, any other key by its code steers the player; every
    /// other event changes nothing.
    pub open spec fn keyed(self, key: DecodedKey) -> GameView {
        if GameView::restarts(self.status, key) {
            GameView::initial()
        } else {
            match (self.status, key) {
                (Status::Normal, DecodedKey::RawKey(code)) => self.steered(code),
                _ => self,
            }
        }
    }

    /// The state after one event.
    pub open spec fn after(self, event: Event) -> GameView {
        match event {
            Event::Key(key) => self.keyed(key),
            Event::Tick => self.ticked(),
        }
    }

    /// The state after a run of events, first to last.
    pub open spec fn after_all(self, events: Seq<Event>) -> GameView
        decreases events.len(),
    {
        if events.len() == 0 {
            self
        } else {
            self.after_all(events.drop_last()).after(events.last())
        }
    }

    /// The score that the surface shows: the clock of the last tick.
    pub open spec fn shown_score(self) -> usize {
        match self.status {
            Status::Normal => self.tick_count,
            Status::Over => up_one(self.tick_count),
        }
    }

    /// The board as the surface shows it: the walls, on them the player, then
    /// the shooters, then the projectiles of the window.
    pub open spec fn board_frame(self) -> Frame {
        projectiles_drawn(
            shooters_drawn(
                plotted(
                    wall_frame(self.walls),
                    PLAYER_GLYPH,
                    self.player.x as int,
                    self.player.y as int,
                    player_color(),
                ),
                self.shooters,
                SHOOTER_CAPACITY as nat,
            ),
            self.projectiles,
            self.window_start(),
            self.proj_count,
        )
    }

    /// What the surface shows after a tick: the board, and over its top row the
    /// score, the label in front of it and, once the game is over, the message.
    pub open spec fn frame(self) -> Frame {
        let scored = plotted_text(
            plotted_number(
                self.board_frame(),
                self.shown_score() as nat,
                SCORE_COLUMN as int,
                0,
                hud_color(),
            ),
            SCORE_LABEL.spec_bytes(),
            LABEL_COLUMN as int,
            0,
            hud_color(),
        );
        match self.status {
            Status::Normal => scored,
            Status::Over => plotted_text(
                scored,
                OVER_MESSAGE.spec_bytes(),
                MESSAGE_COLUMN as int,
                0,
                hud_color(),
            ),
        }
    }
}

} // verus!
