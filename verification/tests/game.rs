use bullet_arena::config::{PROJECTILE_CAPACITY, PROJECTILE_RING, SHOOTER_CAPACITY, SHOOTER_RING};
use bullet_arena::{
    Cell, Color, ColorCode, DecodedKey, Direction, Game, KeyCode, Player, Projectile, Screen,
    Shooter, Status,
};
use rand::rngs::SmallRng;
use rand::{RngCore, SeedableRng};

struct Snapshot {
    player: Player,
    status: Status,
    tick_count: usize,
    proj_count: usize,
    shot_count: usize,
    active_shooters: usize,
    shooters: Vec<Shooter>,
    projectiles: Vec<Projectile>,
}

fn snapshot(game: &Game) -> Snapshot {
    Snapshot {
        player: game.player(),
        status: game.status(),
        tick_count: game.tick_count(),
        proj_count: game.proj_count(),
        shot_count: game.shot_count(),
        active_shooters: game.active_shooters(),
        shooters: (0..SHOOTER_CAPACITY).map(|slot| game.shooter(slot).unwrap()).collect(),
        projectiles: (0..PROJECTILE_CAPACITY).map(|slot| game.projectile(slot).unwrap()).collect(),
    }
}

fn assert_same(a: &Snapshot, b: &Snapshot) {
    assert_eq!(a.player, b.player);
    assert_eq!(a.status, b.status);
    assert_eq!(a.tick_count, b.tick_count);
    assert_eq!(a.proj_count, b.proj_count);
    assert_eq!(a.shot_count, b.shot_count);
    assert_eq!(a.active_shooters, b.active_shooters);
    assert_eq!(a.shooters, b.shooters);
    assert_eq!(a.projectiles, b.projectiles);
}

fn assert_initial(game: &Game) {
    let state = snapshot(game);
    assert_eq!(state.player, Player { x: 40, y: 12 });
    assert_eq!(state.status, Status::Normal);
    assert_eq!(state.tick_count, 0);
    assert_eq!(state.proj_count, 0);
    assert_eq!(state.shot_count, 0);
    assert_eq!(state.active_shooters, 0);
    assert!(state.shooters.iter().all(|s| *s == Shooter { x: 100, y: 100 }));
    assert!(state
        .projectiles
        .iter()
        .all(|p| *p == Projectile { x: 100, y: 100, dir: Direction::Right }));
}

fn frames_equal(a: &Screen, b: &Screen) -> bool {
    (0..25).all(|row| (0..80).all(|col| a.cell(col, row) == b.cell(col, row)))
}

fn line_text(screen: &Screen, row: usize) -> String {
    (0..80).map(|col| screen.cell(col, row).unwrap().glyph as char).collect()
}

fn raw(code: KeyCode) -> DecodedKey {
    DecodedKey::RawKey(code)
}

fn press(game: &mut Game, code: KeyCode, times: usize) {
    for _ in 0..times {
        game.key(raw(code));
    }
}

/// Steers the player to column `x`, row `y` through the open inside of the arena.
fn walk_to(game: &mut Game, x: usize, y: usize) {
    let at = game.player();
    if at.y > y {
        press(game, KeyCode::ArrowUp, at.y - y);
    } else {
        press(game, KeyCode::ArrowDown, y - at.y);
    }
    if at.x > x {
        press(game, KeyCode::ArrowLeft, at.x - x);
    } else {
        press(game, KeyCode::ArrowRight, x - at.x);
    }
    assert_eq!(game.player(), Player { x, y });
}

/// Brings a fresh engine to the point where the next tick ends the game: one
/// shooter stands on the spawn row and the player stands where that shooter
/// fires to.
fn engine_about_to_lose() -> (Game, Screen) {
    let mut game = Game::new();
    let mut screen = Screen::new();
    game.tick(&mut screen);
    let shooter = game.shooter(0).unwrap();
    assert_eq!(shooter.y, 3);
    let target = if shooter.x < 79 { shooter.shoot_down() } else { shooter.shoot_left() };
    walk_to(&mut game, target.x, target.y);
    assert_eq!(game.status(), Status::Normal);
    (game, screen)
}

#[test]
fn new_engine_is_in_the_initial_state() {
    let game = Game::new();
    assert_initial(&game);
    assert_eq!(game.shooter(SHOOTER_CAPACITY), None);
    assert_eq!(game.projectile(PROJECTILE_CAPACITY), None);
}

#[test]
fn walls_of_the_engine_enclose_the_arena() {
    let walls = Game::new().walls();
    for row in 0..25 {
        for col in 0..80 {
            let border = row == 0 || row == 24 || col == 0 || col == 79;
            assert_eq!(walls.occupied(row, col), border);
        }
    }
}

#[test]
fn engines_fed_the_same_events_stay_in_step() {
    let mut a = Game::new();
    let mut b = Game::new();
    let mut screen_a = Screen::new();
    let mut screen_b = Screen::new();
    let keys = [
        raw(KeyCode::ArrowLeft),
        raw(KeyCode::ArrowDown),
        DecodedKey::Unicode('q'),
        raw(KeyCode::ArrowRight),
        raw(KeyCode::Other),
        raw(KeyCode::ArrowUp),
        raw(KeyCode::ArrowLeft),
    ];
    for step in 0..400 {
        a.tick(&mut screen_a);
        b.tick(&mut screen_b);
        assert_same(&snapshot(&a), &snapshot(&b));
        assert!(frames_equal(&screen_a, &screen_b));
        let key = keys[step % keys.len()];
        a.key(key);
        b.key(key);
        assert_same(&snapshot(&a), &snapshot(&b));
    }
}

#[test]
fn first_tick_spawns_a_shooter_at_the_column_the_seed_gives() {
    let mut game = Game::new();
    let mut screen = Screen::new();
    game.tick(&mut screen);
    let mut reference = SmallRng::seed_from_u64(6);
    let column = 1 + reference.next_u32() as usize % 79;
    assert_eq!(game.shooter(0), Some(Shooter { x: column, y: 3 }));
    assert_eq!(game.active_shooters(), 1);
    assert_eq!(game.shot_count(), 1);
    assert_eq!(game.tick_count(), 1);
    assert_eq!(game.shooter(1), Some(Shooter { x: 100, y: 100 }));
}

#[test]
fn first_tick_fires_down_left_up_and_right() {
    let mut game = Game::new();
    let mut screen = Screen::new();
    game.tick(&mut screen);
    let s = game.shooter(0).unwrap();
    assert_eq!(game.proj_count(), 4);
    assert_eq!(game.projectile(0), Some(Projectile { x: s.x, y: 4, dir: Direction::Down }));
    assert_eq!(game.projectile(1), Some(Projectile { x: s.x - 1, y: 3, dir: Direction::Left }));
    assert_eq!(game.projectile(2), Some(Projectile { x: s.x, y: 2, dir: Direction::Up }));
    assert_eq!(game.projectile(3), Some(Projectile { x: s.x + 1, y: 3, dir: Direction::Right }));
    assert_eq!(game.projectile(4), Some(Projectile::new()));
}

#[test]
fn one_shooter_is_active_after_twenty_ticks_and_has_moved_four_rows() {
    let mut game = Game::new();
    let mut screen = Screen::new();
    for _ in 0..20 {
        game.tick(&mut screen);
    }
    let mut reference = SmallRng::seed_from_u64(6);
    let mut expected = Shooter { x: 1 + reference.next_u32() as usize % 79, y: 3 };
    for _ in 0..4 {
        if expected.x > 2 {
            expected.drift_by(reference.next_u32());
        } else {
            expected.drift_by(0);
        }
    }
    assert_eq!(expected.y, 7);
    assert_eq!(game.status(), Status::Normal);
    assert_eq!(game.tick_count(), 20);
    assert_eq!(game.active_shooters(), 1);
    assert_eq!(game.shot_count(), 1);
    assert_eq!(game.shooter(0), Some(expected));
    for slot in 1..SHOOTER_CAPACITY {
        assert_eq!(game.shooter(slot), Some(Shooter::new()));
    }
    for _ in 0..5 {
        game.tick(&mut screen);
    }
    let second = Shooter { x: 1 + reference.next_u32() as usize % 79, y: 3 };
    if expected.x > 2 {
        expected.drift_by(reference.next_u32());
    } else {
        expected.drift_by(0);
    }
    let mut second_moved = second;
    if second.x > 2 {
        second_moved.drift_by(reference.next_u32());
    } else {
        second_moved.drift_by(0);
    }
    assert_eq!(game.tick_count(), 25);
    assert_eq!(game.active_shooters(), 2);
    assert_eq!(game.shooter(0).unwrap().y, 8);
    assert_eq!(game.shooter(0), Some(expected));
    assert_eq!(game.shooter(1), Some(second_moved));
}

#[test]
fn shooters_move_on_every_fifth_tick_only() {
    let mut game = Game::new();
    let mut screen = Screen::new();
    let mut rows = Vec::new();
    for _ in 0..12 {
        game.tick(&mut screen);
        rows.push(game.shooter(0).unwrap().y);
    }
    assert_eq!(rows, vec![3, 3, 3, 3, 4, 4, 4, 4, 4, 5, 5, 5]);
}

#[test]
fn arrow_keys_move_the_player_one_cell() {
    let mut game = Game::new();
    game.key(raw(KeyCode::ArrowUp));
    assert_eq!(game.player(), Player { x: 40, y: 11 });
    game.key(raw(KeyCode::ArrowLeft));
    assert_eq!(game.player(), Player { x: 39, y: 11 });
    game.key(raw(KeyCode::ArrowDown));
    assert_eq!(game.player(), Player { x: 39, y: 12 });
    game.key(raw(KeyCode::ArrowRight));
    assert_eq!(game.player(), Player { x: 40, y: 12 });
}

#[test]
fn move_into_a_wall_is_rejected_and_changes_nothing() {
    let mut game = Game::new();
    press(&mut game, KeyCode::ArrowUp, 11);
    assert_eq!(game.player(), Player { x: 40, y: 1 });
    let before = snapshot(&game);
    game.key(raw(KeyCode::ArrowUp));
    assert_same(&before, &snapshot(&game));
    press(&mut game, KeyCode::ArrowRight, 38);
    assert_eq!(game.player(), Player { x: 78, y: 1 });
    let corner = snapshot(&game);
    game.key(raw(KeyCode::ArrowRight));
    assert_same(&corner, &snapshot(&game));
    game.key(raw(KeyCode::ArrowUp));
    assert_same(&corner, &snapshot(&game));
}

#[test]
fn player_cannot_leave_the_arena_in_any_direction() {
    let mut game = Game::new();
    press(&mut game, KeyCode::ArrowDown, 100);
    assert_eq!(game.player(), Player { x: 40, y: 23 });
    press(&mut game, KeyCode::ArrowLeft, 100);
    assert_eq!(game.player(), Player { x: 1, y: 23 });
    press(&mut game, KeyCode::ArrowUp, 100);
    assert_eq!(game.player(), Player { x: 1, y: 1 });
    press(&mut game, KeyCode::ArrowRight, 100);
    assert_eq!(game.player(), Player { x: 78, y: 1 });
}

#[test]
fn other_keys_are_ignored_while_the_game_runs() {
    let mut game = Game::new();
    let mut screen = Screen::new();
    for _ in 0..7 {
        game.tick(&mut screen);
    }
    game.key(raw(KeyCode::ArrowLeft));
    let before = snapshot(&game);
    game.key(raw(KeyCode::S));
    game.key(raw(KeyCode::Other));
    game.key(DecodedKey::Unicode('s'));
    game.key(DecodedKey::Unicode('r'));
    game.key(DecodedKey::Unicode('R'));
    assert_same(&before, &snapshot(&game));
}

#[test]
fn restart_key_resets_a_running_game() {
    let mut game = Game::new();
    let mut screen = Screen::new();
    for _ in 0..33 {
        game.tick(&mut screen);
    }
    press(&mut game, KeyCode::ArrowLeft, 5);
    game.key(raw(KeyCode::R));
    assert_initial(&game);
}

#[test]
fn reset_leads_back_to_the_state_after_construction() {
    let mut game = Game::new();
    let mut screen = Screen::new();
    for _ in 0..150 {
        game.tick(&mut screen);
    }
    press(&mut game, KeyCode::ArrowDown, 3);
    game.reset_game();
    assert_initial(&game);
    assert_same(&snapshot(&game), &snapshot(&Game::new()));
    let mut fresh = Game::new();
    let mut fresh_screen = Screen::new();
    for _ in 0..150 {
        game.tick(&mut screen);
        fresh.tick(&mut fresh_screen);
        assert_same(&snapshot(&game), &snapshot(&fresh));
    }
}

#[test]
fn projectile_ring_wraps_and_overwrites_the_oldest_slots() {
    let mut game = Game::new();
    let mut screen = Screen::new();
    press(&mut game, KeyCode::ArrowUp, 11);
    let mut written = 0;
    let mut wraps = 0;
    let mut ticks = 0;
    while wraps < 3 && ticks < 2000 {
        let before = snapshot(&game);
        game.tick(&mut screen);
        ticks += 1;
        let after = snapshot(&game);
        let volley: Vec<Projectile> = after
            .shooters
            .iter()
            .filter(|s| s.x < 80 && s.y < 25)
            .flat_map(|s| [s.shoot_down(), s.shoot_left(), s.shoot_up(), s.shoot_right()])
            .collect();
        written += volley.len();
        assert!(after.proj_count < PROJECTILE_RING);
        assert_eq!(after.proj_count, (before.proj_count + volley.len()) % PROJECTILE_RING);
        for (i, shot) in volley.iter().enumerate() {
            assert_eq!(after.projectiles[(before.proj_count + i) % PROJECTILE_RING], *shot);
        }
        for slot in 0..PROJECTILE_RING {
            let offset = (slot + PROJECTILE_RING - before.proj_count) % PROJECTILE_RING;
            if offset >= volley.len() {
                assert_eq!(after.projectiles[slot], before.projectiles[slot]);
            }
        }
        for slot in PROJECTILE_RING..PROJECTILE_CAPACITY {
            assert_eq!(after.projectiles[slot], Projectile::new());
        }
        if after.proj_count < before.proj_count {
            wraps += 1;
        }
        assert_eq!(game.status(), Status::Normal);
    }
    assert_eq!(wraps, 3);
    assert!(written > 2 * PROJECTILE_RING);
}

#[test]
fn add_proj_count_wraps_at_the_end_of_the_ring() {
    let mut game = Game::new();
    for expected in 1..PROJECTILE_RING {
        game.add_proj_count();
        assert_eq!(game.proj_count(), expected);
    }
    game.add_proj_count();
    assert_eq!(game.proj_count(), 0);
    game.add_proj_count();
    assert_eq!(game.proj_count(), 1);
}

#[test]
fn add_shot_count_wraps_at_the_end_of_the_ring() {
    let mut game = Game::new();
    for expected in 1..SHOOTER_RING {
        game.add_shot_count();
        assert_eq!(game.shot_count(), expected);
    }
    game.add_shot_count();
    assert_eq!(game.shot_count(), 0);
}

#[test]
fn cursors_change_nothing_else() {
    let mut game = Game::new();
    let mut screen = Screen::new();
    for _ in 0..30 {
        game.tick(&mut screen);
    }
    let mut before = snapshot(&game);
    game.add_proj_count();
    game.add_shot_count();
    before.proj_count = (before.proj_count + 1) % PROJECTILE_RING;
    before.shot_count = (before.shot_count + 1) % SHOOTER_RING;
    assert_same(&before, &snapshot(&game));
}

#[test]
fn player_on_a_firing_cell_loses_on_the_next_tick_and_stays_lost() {
    let (mut game, mut screen) = engine_about_to_lose();
    let ticks = game.tick_count();
    game.tick(&mut screen);
    assert_eq!(game.status(), Status::Over);
    assert_eq!(game.tick_count(), ticks);
    for _ in 0..10 {
        game.tick(&mut screen);
        assert_eq!(game.status(), Status::Over);
        assert_eq!(game.tick_count(), ticks);
    }
}

#[test]
fn game_stays_over_through_ticks_and_other_keys() {
    let (mut game, mut screen) = engine_about_to_lose();
    game.tick(&mut screen);
    assert_eq!(game.status(), Status::Over);
    let ticks = game.tick_count();
    let player = game.player();
    let keys = [
        raw(KeyCode::ArrowUp),
        raw(KeyCode::ArrowDown),
        raw(KeyCode::ArrowLeft),
        raw(KeyCode::ArrowRight),
        raw(KeyCode::R),
        raw(KeyCode::Other),
        DecodedKey::Unicode('S'),
        DecodedKey::Unicode('r'),
        DecodedKey::Unicode(' '),
    ];
    for round in 0..60 {
        let before = snapshot(&game);
        game.key(keys[round % keys.len()]);
        assert_same(&before, &snapshot(&game));
        game.tick(&mut screen);
        assert_eq!(game.status(), Status::Over);
        assert_eq!(game.tick_count(), ticks);
        assert_eq!(game.player(), player);
    }
}

#[test]
fn restart_by_key_code_resets_a_lost_game() {
    let (mut game, mut screen) = engine_about_to_lose();
    game.tick(&mut screen);
    assert_eq!(game.status(), Status::Over);
    game.key(raw(KeyCode::S));
    assert_initial(&game);
}

#[test]
fn restart_by_character_resets_a_lost_game() {
    let (mut game, mut screen) = engine_about_to_lose();
    game.tick(&mut screen);
    assert_eq!(game.status(), Status::Over);
    game.key(DecodedKey::Unicode('s'));
    assert_initial(&game);
    game.tick(&mut screen);
    assert_eq!(game.status(), Status::Normal);
    assert_eq!(game.tick_count(), 1);
}

#[test]
fn clock_counts_the_ticks_of_a_running_game() {
    let mut game = Game::new();
    let mut screen = Screen::new();
    press(&mut game, KeyCode::ArrowUp, 11);
    for expected in 1..=19 {
        game.tick(&mut screen);
        assert_eq!(game.status(), Status::Normal);
        assert_eq!(game.tick_count(), expected);
    }
}

#[test]
fn tick_draws_walls_player_shooter_and_projectiles() {
    let mut game = Game::new();
    let mut screen = Screen::new();
    game.tick(&mut screen);
    let s = game.shooter(0).unwrap();
    let on_black = |foreground| ColorCode { foreground, background: Color::Black };
    assert_eq!(screen.cell(40, 12), Some(Cell { glyph: b'*', color: on_black(Color::Green) }));
    assert_eq!(screen.cell(s.x, 3), Some(Cell { glyph: b'S', color: on_black(Color::Magenta) }));
    let shot = Cell { glyph: b'X', color: on_black(Color::Yellow) };
    let wall = Cell { glyph: b'#', color: on_black(Color::Blue) };
    let free = Cell { glyph: b' ', color: on_black(Color::Blue) };
    for row in 1..25 {
        for col in 0..80 {
            let cell = screen.cell(col, row).unwrap();
            let fired = [(s.x, 4), (s.x - 1, 3), (s.x, 2), (s.x + 1, 3)].contains(&(col, row));
            if fired && col < 79 {
                assert_eq!(cell, shot);
            } else if (col, row) == (s.x, 3) {
                assert_eq!(cell.glyph, b'S');
            } else if (col, row) == (40, 12) {
                assert_eq!(cell.glyph, b'*');
            } else if row == 24 || col == 0 || col == 79 {
                assert_eq!(cell, wall);
            } else {
                assert_eq!(cell, free);
            }
        }
    }
}

#[test]
fn score_line_shows_label_and_clock() {
    let mut game = Game::new();
    let mut screen = Screen::new();
    press(&mut game, KeyCode::ArrowUp, 11);
    for _ in 0..12 {
        game.tick(&mut screen);
    }
    assert_eq!(game.status(), Status::Normal);
    let top = line_text(&screen, 0);
    assert_eq!(&top[0..10], "#Score:12#");
    let white = ColorCode { foreground: Color::White, background: Color::Black };
    for col in 1..9 {
        assert_eq!(screen.cell(col, 0).unwrap().color, white);
    }
    assert_eq!(screen.cell(9, 0).unwrap().color.foreground, Color::Blue);
    assert_eq!(&top[9..], "#".repeat(71));
}

#[test]
fn score_line_shows_the_message_once_the_game_is_over() {
    let (mut game, mut screen) = engine_about_to_lose();
    let ticks = game.tick_count();
    game.tick(&mut screen);
    assert_eq!(game.status(), Status::Over);
    let top = line_text(&screen, 0);
    let expected = format!("#Score:{}", ticks + 1);
    assert_eq!(&top[0..expected.len()], expected);
    assert_eq!(&top[12..43], "Game Over! Press 's' to restart");
    assert_eq!(&top[43..], "#".repeat(37));
    game.tick(&mut screen);
    assert_eq!(line_text(&screen, 0), top);
}

#[test]
fn draw_shows_the_state_without_changing_it() {
    let mut game = Game::new();
    let mut ticked = Screen::new();
    for _ in 0..27 {
        game.tick(&mut ticked);
    }
    let before = snapshot(&game);
    let mut drawn = Screen::new();
    drawn.plot(b'?', 10, 10, ColorCode { foreground: Color::Red, background: Color::Red });
    game.draw(&mut drawn);
    assert!(frames_equal(&ticked, &drawn));
    assert_same(&before, &snapshot(&game));
}

/// Brings a fresh engine to the point where a projectile that is no longer
/// fired anew lies in slot 14, and the player stands on its cell.
fn engine_on_a_stale_projectile() -> (Game, Screen) {
    let mut game = Game::new();
    let mut screen = Screen::new();
    for _ in 0..4 {
        game.tick(&mut screen);
    }
    let stale = game.projectile(14).unwrap();
    assert_eq!(stale.dir, Direction::Up);
    assert_eq!(stale.y, 2);
    assert!(stale.x < 79);
    game.tick(&mut screen);
    assert_eq!(game.proj_count(), 20);
    assert_eq!(game.projectile(14), Some(stale));
    for slot in 16..20 {
        let fresh = game.projectile(slot).unwrap();
        assert_ne!((fresh.x, fresh.y), (stale.x, stale.y));
    }
    walk_to(&mut game, stale.x, stale.y);
    (game, screen)
}

#[test]
fn projectile_inside_the_window_hits_the_player() {
    let (mut game, mut screen) = engine_on_a_stale_projectile();
    game.tick(&mut screen);
    assert_eq!(game.status(), Status::Over);
}

#[test]
fn projectile_behind_the_window_does_not_hit_the_player() {
    let (mut game, mut screen) = engine_on_a_stale_projectile();
    for _ in 0..45 {
        game.add_proj_count();
    }
    assert_eq!(game.proj_count(), 65);
    game.tick(&mut screen);
    assert_eq!(game.proj_count(), 69);
    assert_eq!(game.status(), Status::Normal);
    let stale = game.projectile(14).unwrap();
    assert_eq!((stale.x, stale.y), (game.player().x, game.player().y));
}

#[test]
fn window_does_not_reach_around_the_end_of_the_ring() {
    let (mut game, mut screen) = engine_on_a_stale_projectile();
    for _ in 0..(PROJECTILE_RING - 22) {
        game.add_proj_count();
    }
    assert_eq!(game.proj_count(), PROJECTILE_RING - 2);
    game.tick(&mut screen);
    assert_eq!(game.proj_count(), 2);
    assert_eq!(game.status(), Status::Normal);
}

/// A plain model of the rules of a tick, kept apart from the engine: it draws
/// from its own generator and holds nothing but positions and counters.
struct Model {
    rng: SmallRng,
    clock: usize,
    shooters: Vec<(usize, usize)>,
    projectiles: Vec<(usize, usize, Direction)>,
    proj_count: usize,
    shot_count: usize,
    active: usize,
}

impl Model {
    fn new() -> Model {
        Model {
            rng: SmallRng::seed_from_u64(6),
            clock: 0,
            shooters: vec![(100, 100); 100],
            projectiles: vec![(100, 100, Direction::Right); 1000],
            proj_count: 0,
            shot_count: 0,
            active: 0,
        }
    }

    fn fire(&mut self, x: usize, y: usize, dir: Direction) {
        self.projectiles[self.proj_count] = (x, y, dir);
        self.proj_count = (self.proj_count + 1) % 250;
    }

    fn tick(&mut self) {
        if self.clock % 20 == 0 {
            let column = 1 + self.rng.next_u32() as usize % 79;
            self.shooters[self.shot_count] = (column, 3);
            self.shot_count = (self.shot_count + 1) % 99;
            self.active += 1;
        }
        self.clock += 1;
        if self.clock % 5 == 0 {
            for slot in 0..self.active {
                let (x, y) = self.shooters[slot];
                let left = x > 2 && self.rng.next_u32() as usize % 2 == 0;
                self.shooters[slot] = if left { (x - 1, y + 1) } else { (x + 1, y + 1) };
            }
        }
        for slot in 0..100 {
            let (x, y) = self.shooters[slot];
            if x < 80 && y < 25 {
                self.fire(x, y + 1, Direction::Down);
                self.fire(x - 1, y, Direction::Left);
                self.fire(x, y - 1, Direction::Up);
                self.fire(x + 1, y, Direction::Right);
            }
        }
    }
}

fn assert_matches_model(game: &Game, model: &Model) {
    assert_eq!(game.tick_count(), model.clock);
    assert_eq!(game.proj_count(), model.proj_count);
    assert_eq!(game.shot_count(), model.shot_count);
    assert_eq!(game.active_shooters(), model.active);
    for slot in 0..SHOOTER_CAPACITY {
        let (x, y) = model.shooters[slot];
        assert_eq!(game.shooter(slot), Some(Shooter { x, y }), "slot {}", slot);
    }
    for slot in 0..PROJECTILE_CAPACITY {
        let (x, y, dir) = model.projectiles[slot];
        assert_eq!(game.projectile(slot), Some(Projectile { x, y, dir }), "slot {}", slot);
    }
}

#[test]
fn engine_follows_the_rules_tick_by_tick() {
    let mut game = Game::new();
    let mut screen = Screen::new();
    let mut model = Model::new();
    press(&mut game, KeyCode::ArrowUp, 11);
    assert_eq!(game.player(), Player { x: 40, y: 1 });
    for _ in 0..2000 {
        game.tick(&mut screen);
        model.tick();
        assert_eq!(game.status(), Status::Normal);
        assert_matches_model(&game, &model);
    }
    assert_eq!(game.active_shooters(), 100);
    assert_eq!(game.shot_count(), 1);
}

#[test]
fn number_of_active_shooters_stops_at_the_number_of_slots() {
    let mut game = Game::new();
    let mut screen = Screen::new();
    press(&mut game, KeyCode::ArrowUp, 11);
    for _ in 0..3000 {
        game.tick(&mut screen);
        assert!(game.active_shooters() <= SHOOTER_CAPACITY);
        assert!(game.shot_count() < SHOOTER_RING);
        assert!(game.proj_count() < PROJECTILE_RING);
    }
    assert_eq!(game.status(), Status::Normal);
    assert_eq!(game.tick_count(), 3000);
    assert_eq!(game.active_shooters(), SHOOTER_CAPACITY);
    assert_eq!(game.shot_count(), 150 % SHOOTER_RING);
}

#[test]
fn player_on_the_top_row_of_the_arena_is_out_of_reach() {
    let mut game = Game::new();
    let mut screen = Screen::new();
    press(&mut game, KeyCode::ArrowUp, 11);
    for _ in 0..500 {
        game.tick(&mut screen);
        for slot in 0..PROJECTILE_RING {
            let p = game.projectile(slot).unwrap();
            assert!(p.y >= 2);
        }
    }
    assert_eq!(game.status(), Status::Normal);
}
