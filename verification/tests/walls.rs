use bullet_arena::config::{HEIGHT, WALLS, WIDTH};
use bullet_arena::{Cell, Color, ColorCode, Screen, Walls};

#[test]
fn the_map_of_the_arena_is_enclosed_and_open_inside() {
    let walls = Walls::new(WALLS);
    for row in 0..HEIGHT {
        for col in 0..WIDTH {
            let border = row == 0 || row == HEIGHT - 1 || col == 0 || col == WIDTH - 1;
            assert_eq!(walls.occupied(row, col), border, "row {} col {}", row, col);
        }
    }
}

#[test]
fn cells_outside_the_board_are_occupied() {
    let walls = Walls::new("");
    assert!(walls.occupied(25, 0));
    assert!(walls.occupied(0, 80));
    assert!(walls.occupied(25, 80));
    assert!(walls.occupied(usize::MAX, usize::MAX));
    assert!(!walls.occupied(24, 79));
    assert!(!walls.occupied(0, 0));
}

#[test]
fn occupied_takes_the_row_first() {
    let walls = Walls::new(" #\n\n#");
    assert!(walls.occupied(0, 1));
    assert!(!walls.occupied(1, 0));
    assert!(walls.occupied(2, 0));
    assert!(!walls.occupied(0, 2));
}

#[test]
fn short_rows_leave_their_remaining_cells_free() {
    let walls = Walls::new("##\n#");
    assert!(walls.occupied(0, 0));
    assert!(walls.occupied(0, 1));
    assert!(!walls.occupied(0, 2));
    assert!(walls.occupied(1, 0));
    assert!(!walls.occupied(1, 1));
    assert!(!walls.occupied(2, 0));
}

#[test]
fn every_other_byte_stands_for_a_free_cell() {
    let walls = Walls::new("a#.\t#");
    assert!(!walls.occupied(0, 0));
    assert!(walls.occupied(0, 1));
    assert!(!walls.occupied(0, 2));
    assert!(!walls.occupied(0, 3));
    assert!(walls.occupied(0, 4));
}

#[test]
fn columns_count_the_bytes_of_a_row() {
    let walls = Walls::new("\u{e9}#");
    assert!(!walls.occupied(0, 0));
    assert!(!walls.occupied(0, 1));
    assert!(walls.occupied(0, 2));
}

#[test]
fn marks_beyond_the_board_are_ignored() {
    let mut text = String::new();
    for _ in 0..30 {
        for _ in 0..90 {
            text.push('#');
        }
        text.push('\n');
    }
    let walls = Walls::new(&text);
    for row in 0..HEIGHT {
        for col in 0..WIDTH {
            assert!(walls.occupied(row, col));
        }
    }
}

#[test]
fn walls_draw_fills_the_whole_surface() {
    let walls = Walls::new("#\n #");
    let mut screen = Screen::new();
    let white = ColorCode { foreground: Color::White, background: Color::Red };
    screen.plot(b'Q', 5, 5, white);
    walls.draw(&mut screen);
    let blue = ColorCode { foreground: Color::Blue, background: Color::Black };
    for row in 0..HEIGHT {
        for col in 0..WIDTH {
            let wall = (row, col) == (0, 0) || (row, col) == (1, 1);
            let glyph = if wall { b'#' } else { b' ' };
            assert_eq!(screen.cell(col, row), Some(Cell { glyph, color: blue }));
        }
    }
}
