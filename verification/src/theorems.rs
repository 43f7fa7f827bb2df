//! What holds of the engine in every state and over every run of events.

use vstd::prelude::*;

use crate::config::{
    HEIGHT, PROJECTILE_CAPACITY, PROJECTILE_RING, SHOOTER_CAPACITY, SHOOTER_RING, SPAWN_ROW,
    WIDTH,
};
use crate::model::{player_color, projectiles_drawn, shooters_drawn, GameView, Status};
use crate::input::{DecodedKey, Event, KeyCode};
use crate::player::{Player, PLAYER_GLYPH};
use crate::projectile::{projectile_color, Projectile, PROJECTILE_GLYPH};
use crate::screen::{frame_wf, Cell, Frame};
use crate::shooter::{shooter_color, Shooter, SHOOTER_GLYPH};
use crate::walls::{arena, lemma_arena_enclosed, occupied_at, on_border, wall_cell};

verus! {

/// `event` is a key that restarts a lost game.
pub open spec fn restarts_lost_game(event: Event) -> bool {
    match event {
        Event::Key(key) => GameView::restarts(Status::Over, key),
        Event::Tick => false,
    }
}

/// No event of `events` is a key that restarts a lost game.
pub open spec fn restart_free(events: Seq<Event>) -> bool {
    forall|i: int| 0 <= i < events.len() ==> !restarts_lost_game(#[trigger] events[i])
}

/// The engine is deterministic: two engines in the same state that are fed the
/// same events are in the same state after each of them. Every engine starts in
/// the same state, so the events alone decide where an engine stands.
pub proof fn same_events_same_states(a: GameView, b: GameView, events: Seq<Event>, upto: int)
    requires
        a == b,
        0 <= upto <= events.len(),
    ensures
        a.after_all(events.take(upto)) == b.after_all(events.take(upto)),
        a.after_all(events.take(upto)).player == b.after_all(events.take(upto)).player,
        a.after_all(events.take(upto)).shooters == b.after_all(events.take(upto)).shooters,
        a.after_all(events.take(upto)).projectiles == b.after_all(events.take(upto)).projectiles,
        a.after_all(events.take(upto)).status == b.after_all(events.take(upto)).status,
{
}

/// The initial state is well formed, and so is every state that a run of events
/// leads to from a well-formed state: no cursor ever leaves its slots.
pub proof fn events_keep_well_formed(state: GameView, events: Seq<Event>)
    requires
        state.wf(),
    ensures
        GameView::initial().wf(),
        state.after_all(events).wf(),
        state.after_all(events).proj_count < PROJECTILE_RING,
        state.after_all(events).shot_count < SHOOTER_RING,
    decreases events.len(),
{
    GameView::lemma_initial_wf();
    if events.len() > 0 {
        events_keep_well_formed(state, events.drop_last());
        state.after_all(events.drop_last()).lemma_ticked_frame();
    }
}

/// The player never stands on a wall and never leaves the arena: after every run
/// of events it stands inside the ring of walls.
pub proof fn player_stays_inside_the_walls(state: GameView, events: Seq<Event>)
    requires
        state.wf(),
    ensures
        !occupied_at(
            state.after_all(events).walls,
            state.after_all(events).player.y as int,
            state.after_all(events).player.x as int,
        ),
        0 < state.after_all(events).player.x < WIDTH - 1,
        0 < state.after_all(events).player.y < HEIGHT - 1,
{
    events_keep_well_formed(state, events);
    lemma_arena_enclosed();
    let player = state.after_all(events).player;
    assert(arena()[player.y as int][player.x as int] == on_border(
        player.y as int,
        player.x as int,
    ));
}

/// Every shooter stands beyond the first column and on or below the spawn row.
pub open spec fn shooters_clear_of_zero(state: GameView) -> bool {
    forall|slot: int|
        0 <= slot < state.shooters.len() ==> (#[trigger] state.shooters[slot]).x >= 1
            && state.shooters[slot].y >= SPAWN_ROW
}

/// An event leaves the shooters beyond the first column and on or below the
/// spawn row, if they were there before it.
pub proof fn event_keeps_shooters_clear_of_zero(state: GameView, event: Event)
    requires
        state.wf(),
        shooters_clear_of_zero(state),
    ensures
        shooters_clear_of_zero(GameView::initial()),
        shooters_clear_of_zero(state.after(event)),
{
    reveal(GameView::drifted_upto);
    let spawned = state.spawned();
    let drifted = spawned.drifted();
    state.lemma_spawned_wf();
    spawned.lemma_drifted_frame(spawned.active_shooters);
    drifted.lemma_fired_step(SHOOTER_CAPACITY as nat);
    assert(shooters_clear_of_zero(spawned));
    assert(shooters_clear_of_zero(drifted));
    assert(state.ticked().shooters == drifted.shooters);
}

/// In the engine no coordinate is ever taken below zero. In every state that a
/// run of events leads to from the initial state, the player stands beyond the
/// first row and column and every shooter beyond the first column and on or
/// below the spawn row: each step up or to the left, and each shot fired up or
/// to the left, subtracts one from a coordinate that is above zero.
pub proof fn no_decrement_meets_zero(events: Seq<Event>, slot: int)
    requires
        0 <= slot < SHOOTER_CAPACITY,
    ensures
        GameView::initial().after_all(events).wf(),
        shooters_clear_of_zero(GameView::initial().after_all(events)),
        GameView::initial().after_all(events).player.x >= 1,
        GameView::initial().after_all(events).player.y >= 1,
        GameView::initial().after_all(events).shooters[slot].shot_left().x
            == GameView::initial().after_all(events).shooters[slot].x - 1,
        GameView::initial().after_all(events).shooters[slot].shot_up().y
            == GameView::initial().after_all(events).shooters[slot].y - 1,
    decreases events.len(),
{
    GameView::lemma_initial_wf();
    let start = GameView::initial();
    events_keep_well_formed(start, events);
    player_stays_inside_the_walls(start, events);
    if events.len() == 0 {
        assert(shooters_clear_of_zero(start));
    } else {
        no_decrement_meets_zero(events.drop_last(), slot);
        events_keep_well_formed(start, events.drop_last());
        event_keeps_shooters_clear_of_zero(start.after_all(events.drop_last()), events.last());
    }
    let shooter = start.after_all(events).shooters[slot];
    assert(shooter.x >= 1 && shooter.y >= SPAWN_ROW);
}

/// A move onto a closed cell, be it a wall or a cell outside the board, is
/// rejected: the state after the key event is the state before it.
pub proof fn closed_cell_rejects_move(state: GameView, code: KeyCode)
    requires
        state.status is Normal,
        code != KeyCode::R,
        occupied_at(
            state.walls,
            state.steer_target(code).y as int,
            state.steer_target(code).x as int,
        ),
    ensures
        state.keyed(DecodedKey::RawKey(code)) == state,
{
}

/// A key event that is no restart changes at most the player, and the player
/// either stays or stands on the open cell that the key steers to: no move is
/// applied in part.
pub proof fn moves_are_whole_or_rejected(state: GameView, key: DecodedKey)
    requires
        !GameView::restarts(state.status, key),
    ensures
        state.keyed(key) == (GameView { player: state.keyed(key).player, ..state }),
        state.keyed(key).player != state.player ==> state.status is Normal && key is RawKey,
        key matches DecodedKey::RawKey(code) ==> state.keyed(key).player == state.player || (
        state.keyed(key).player == state.steer_target(code) && !occupied_at(
            state.walls,
            state.steer_target(code).y as int,
            state.steer_target(code).x as int,
        )),
{
}

/// The initial state: the player at the center, the game running, the clock at
/// zero, every cursor at the first slot, and every shooter and projectile parked
/// off the board.
pub proof fn initial_state_is_blank()
    ensures
        GameView::initial().wf(),
        GameView::initial().player == (Player { x: 40, y: 12 }),
        GameView::initial().status is Normal,
        GameView::initial().tick_count == 0,
        GameView::initial().proj_count == 0,
        GameView::initial().shot_count == 0,
        GameView::initial().active_shooters == 0,
        forall|slot: int|
            0 <= slot < SHOOTER_CAPACITY ==> #[trigger] GameView::initial().shooters[slot]
                == Shooter::parked(),
        forall|slot: int|
            0 <= slot < PROJECTILE_CAPACITY ==> #[trigger] GameView::initial().projectiles[slot]
                == Projectile::parked(),
        !Shooter::parked().on_board(),
        !Projectile::parked().on_board(),
{
    GameView::lemma_initial_wf();
}

/// A restart key leads to the initial state, whatever the state before it.
pub proof fn restart_leads_to_initial_state(state: GameView, key: DecodedKey)
    requires
        GameView::restarts(state.status, key),
    ensures
        state.keyed(key) == GameView::initial(),
{
}

/// The projectile ring wraps around. Writing projectiles moves the cursor on
/// modulo the size of the ring, so it never leaves the slots; each of the last
/// `PROJECTILE_RING` projectiles written sits in the slot that was under the
/// cursor when it was written, and whatever that slot held before is gone.
/// Nothing but the slots and the cursor changes.
pub proof fn ring_overwrites_oldest(state: GameView, shots: Seq<Projectile>)
    requires
        state.wf(),
    ensures
        state.stored_all(shots).wf(),
        state.stored_all(shots).proj_count == (state.proj_count + shots.len()) % (
        PROJECTILE_RING as nat),
        state.stored_all(shots) == (GameView {
            projectiles: state.stored_all(shots).projectiles,
            proj_count: state.stored_all(shots).proj_count,
            ..state
        }),
        forall|j: int|
            0 <= j < shots.len() && shots.len() - j <= PROJECTILE_RING
                ==> state.stored_all(shots).projectiles[(state.proj_count + j) % (
            PROJECTILE_RING as int)] == #[trigger] shots[j],
    decreases shots.len(),
{
    state.lemma_stored_all_frame(shots);
    if shots.len() > 0 {
        let earlier = shots.drop_last();
        ring_overwrites_oldest(state, earlier);
        state.lemma_stored_all_frame(earlier);
        let before = state.stored_all(earlier);
        let after = state.stored_all(shots);
        let ring = PROJECTILE_RING as int;
        let cursor = state.proj_count as int;
        let last = shots.len() - 1;
        assert(after == before.stored(shots.last()));
        assert(before.proj_count == (cursor + last) % ring);
        assert(after.proj_count == (cursor + last + 1) % ring);
        assert forall|j: int|
            0 <= j < shots.len() && shots.len() - j <= ring implies after.projectiles[(cursor + j)
            % ring] == #[trigger] shots[j] by {
            if j < last {
                assert(earlier[j] == shots[j]);
                assert(0 < last - j < ring);
                assert((cursor + j) % ring != (cursor + last) % ring);
                assert(before.projectiles[(cursor + j) % ring] == earlier[j]);
            }
        }
    }
}

/// For a player on the board, a projectile hits exactly if it stands on the
/// player's cell; a parked projectile never does.
pub proof fn hit_means_same_cell(state: GameView, slot: int)
    requires
        state.wf(),
    ensures
        state.hit_by(slot) == (state.projectiles[slot].x == state.player.x
            && state.projectiles[slot].y == state.player.y),
        state.projectiles[slot] == Projectile::parked() ==> !state.hit_by(slot),
{
}

/// Once the game is over it stays over, and the clock stands still, through
/// every run of ticks and key events that holds no restart key.
pub proof fn over_stays_over(state: GameView, events: Seq<Event>)
    requires
        state.wf(),
        state.status is Over,
        restart_free(events),
    ensures
        state.after_all(events).wf(),
        state.after_all(events).status is Over,
        state.after_all(events).tick_count == state.tick_count,
    decreases events.len(),
{
    if events.len() > 0 {
        let earlier = events.drop_last();
        assert forall|i: int| 0 <= i < earlier.len() implies !restarts_lost_game(
            #[trigger] earlier[i],
        ) by {
            assert(earlier[i] == events[i]);
        }
        over_stays_over(state, earlier);
        let before = state.after_all(earlier);
        before.lemma_ticked_frame();
        assert(events.last() == events[events.len() - 1]);
    }
}

/// A tick never moves the clock back, and it moves it on by at most one; when
/// the tick ends with the game over, the clock has not moved.
pub proof fn clock_is_monotone(state: GameView)
    requires
        state.wf(),
    ensures
        state.tick_count <= state.ticked().tick_count <= state.tick_count + 1,
        state.ticked().status is Over ==> state.ticked().tick_count == state.tick_count,
{
    state.lemma_ticked_frame();
}

/// The projectile in slot `slot` is drawn on the cell at `row`, `col`.
pub open spec fn projectile_shown(projectiles: Seq<Projectile>, slot: int, row: int, col: int) -> bool {
    projectiles[slot].visible() && projectiles[slot].x == col && projectiles[slot].y == row
}

/// A projectile in a slot from `from` up to, not including, `upto` is drawn on
/// the cell at `row`, `col`.
pub open spec fn any_projectile_shown(
    projectiles: Seq<Projectile>,
    from: int,
    upto: int,
    row: int,
    col: int,
) -> bool {
    exists|slot: int| from <= slot < upto && #[trigger] projectile_shown(projectiles, slot, row, col)
}

/// The shooter in slot `slot` stands on the cell at `row`, `col`.
pub open spec fn shooter_shown(shooters: Seq<Shooter>, slot: int, row: int, col: int) -> bool {
    shooters[slot].x == col && shooters[slot].y == row
}

/// A shooter in one of the first `upto` slots stands on the cell at `row`, `col`.
pub open spec fn any_shooter_shown(shooters: Seq<Shooter>, upto: int, row: int, col: int) -> bool {
    exists|slot: int| 0 <= slot < upto && #[trigger] shooter_shown(shooters, slot, row, col)
}

/// The cell that shows a projectile.
pub open spec fn projectile_cell() -> Cell {
    Cell { glyph: PROJECTILE_GLYPH, color: projectile_color() }
}

/// The cell that shows a shooter.
pub open spec fn shooter_cell() -> Cell {
    Cell { glyph: SHOOTER_GLYPH, color: shooter_color() }
}

/// The cell that shows the player.
pub open spec fn player_cell() -> Cell {
    Cell { glyph: PLAYER_GLYPH, color: player_color() }
}

/// After projectiles are drawn, a cell shows a projectile exactly if one of them
/// is drawn on it, and what it showed before if none is.
pub proof fn projectiles_cover_their_cells(
    frame: Frame,
    projectiles: Seq<Projectile>,
    from: nat,
    upto: nat,
    row: int,
    col: int,
)
    requires
        frame_wf(frame),
        0 <= row < HEIGHT,
        0 <= col < WIDTH,
    ensures
        frame_wf(projectiles_drawn(frame, projectiles, from, upto)),
        projectiles_drawn(frame, projectiles, from, upto)[row][col] == if any_projectile_shown(
            projectiles,
            from as int,
            upto as int,
            row,
            col,
        ) {
            projectile_cell()
        } else {
            frame[row][col]
        },
    decreases upto,
{
    if upto > from {
        let last = upto - 1;
        projectiles_cover_their_cells(frame, projectiles, from, last as nat, row, col);
        if any_projectile_shown(projectiles, from as int, upto as int, row, col) {
            let slot = choose|slot: int|
                from <= slot < upto && #[trigger] projectile_shown(projectiles, slot, row, col);
            if slot < last {
                assert(any_projectile_shown(projectiles, from as int, last, row, col));
            }
        }
        if any_projectile_shown(projectiles, from as int, last, row, col) {
            let slot = choose|slot: int|
                from <= slot < last && #[trigger] projectile_shown(projectiles, slot, row, col);
            assert(projectile_shown(projectiles, slot, row, col));
        }
        if projectile_shown(projectiles, last, row, col) {
            assert(any_projectile_shown(projectiles, from as int, upto as int, row, col));
        }
    }
}

/// After shooters are drawn, a cell shows a shooter exactly if one of them stands
/// on it, and what it showed before if none does.
pub proof fn shooters_cover_their_cells(
    frame: Frame,
    shooters: Seq<Shooter>,
    upto: nat,
    row: int,
    col: int,
)
    requires
        frame_wf(frame),
        0 <= row < HEIGHT,
        0 <= col < WIDTH,
    ensures
        frame_wf(shooters_drawn(frame, shooters, upto)),
        shooters_drawn(frame, shooters, upto)[row][col] == if any_shooter_shown(
            shooters,
            upto as int,
            row,
            col,
        ) {
            shooter_cell()
        } else {
            frame[row][col]
        },
    decreases upto,
{
    if upto > 0 {
        let last = upto - 1;
        shooters_cover_their_cells(frame, shooters, last as nat, row, col);
        if any_shooter_shown(shooters, upto as int, row, col) {
            let slot = choose|slot: int|
                0 <= slot < upto && #[trigger] shooter_shown(shooters, slot, row, col);
            if slot < last {
                assert(any_shooter_shown(shooters, last, row, col));
            }
        }
        if any_shooter_shown(shooters, last, row, col) {
            let slot = choose|slot: int|
                0 <= slot < last && #[trigger] shooter_shown(shooters, slot, row, col);
            assert(shooter_shown(shooters, slot, row, col));
        }
        if shooter_shown(shooters, last, row, col) {
            assert(any_shooter_shown(shooters, upto as int, row, col));
        }
    }
}

/// What a cell of the board shows: a projectile if one of the window is drawn on
/// it; if not, a shooter if one stands on it; if not, the player if it stands on
/// it; and the wall or the free cell of the map otherwise.
pub proof fn board_cell_shows_topmost(state: GameView, row: int, col: int)
    requires
        state.wf(),
        0 <= row < HEIGHT,
        0 <= col < WIDTH,
    ensures
        frame_wf(state.board_frame()),
        state.board_frame()[row][col] == if any_projectile_shown(
            state.projectiles,
            state.window_start() as int,
            state.proj_count as int,
            row,
            col,
        ) {
            projectile_cell()
        } else if any_shooter_shown(state.shooters, SHOOTER_CAPACITY as int, row, col) {
            shooter_cell()
        } else if state.player.x == col && state.player.y == row {
            player_cell()
        } else {
            wall_cell(state.walls, row, col)
        },
{
    let walls = crate::walls::wall_frame(state.walls);
    let with_player = crate::screen::plotted(
        walls,
        PLAYER_GLYPH,
        state.player.x as int,
        state.player.y as int,
        player_color(),
    );
    let with_shooters = shooters_drawn(with_player, state.shooters, SHOOTER_CAPACITY as nat);
    shooters_cover_their_cells(with_player, state.shooters, SHOOTER_CAPACITY as nat, row, col);
    projectiles_cover_their_cells(
        with_shooters,
        state.projectiles,
        state.window_start(),
        state.proj_count,
        row,
        col,
    );
}

/// Below the top row the surface shows the board; the score line covers cells
/// of the top row only.
pub proof fn score_line_covers_top_row_only(state: GameView, row: int, col: int)
    requires
        state.wf(),
        1 <= row < HEIGHT,
        0 <= col < WIDTH,
    ensures
        frame_wf(state.frame()),
        state.frame()[row][col] == state.board_frame()[row][col],
{
    board_cell_shows_topmost(state, row, col);
}

} // verus!
