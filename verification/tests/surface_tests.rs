use hackathon::driver::tick;
use hackathon::entity::{Hacker, HackerMood, HackerSitState};
use hackathon::machine::{GameStatus, KeyEvent, LoopAction, TickInput};
use hackathon::surface::{splash_line, Grid, SurfaceError, SPLASH_LINE_COUNT};
use hackathon::world::GameState;

fn world_with_one_hacker() -> GameState {
    let mut state = GameState::default();
    let mut hacker = Hacker::default();
    hacker.mood = HackerMood::Sad;
    hacker.position = (5, 5);
    state.hackers.push(hacker);
    state
}

fn row_text(grid: &Grid, row: u16, len: u16) -> String {
    let mut s = String::new();
    for col in 0..len {
        s.push(grid.get_cell(col, row));
    }
    s
}

#[test]
fn new_grid_is_blank() {
    let grid = Grid::new(4, 3);
    assert_eq!(grid.width(), 4);
    assert_eq!(grid.height(), 3);
    for row in 0..3 {
        for col in 0..4 {
            assert_eq!(grid.get_cell(col, row), ' ');
        }
    }
}

#[test]
fn set_cell_touches_only_its_cell() {
    let mut grid = Grid::new(3, 2);
    grid.set_cell(1, 1, 'x');
    for row in 0..2 {
        for col in 0..3 {
            let expected = if (col, row) == (1, 1) { 'x' } else { ' ' };
            assert_eq!(grid.get_cell(col, row), expected);
        }
    }
}

#[test]
fn write_text_places_a_line() {
    let mut grid = Grid::new(10, 2);
    grid.write_text(2, 1, "hi");
    assert_eq!(grid.get_cell(2, 1), 'h');
    assert_eq!(grid.get_cell(3, 1), 'i');
    assert_eq!(grid.get_cell(1, 1), ' ');
    assert_eq!(grid.get_cell(4, 1), ' ');
}

#[test]
fn write_text_clips_at_the_right_edge() {
    let mut grid = Grid::new(5, 1);
    grid.write_text(2, 0, "abcdef");
    assert_eq!(row_text(&grid, 0, 5), "  abc");
}

#[test]
fn write_text_off_surface_writes_nothing() {
    let mut grid = Grid::new(5, 2);
    grid.write_text(0, 2, "below");
    grid.write_text(5, 0, "right");
    for row in 0..2 {
        for col in 0..5 {
            assert_eq!(grid.get_cell(col, row), ' ');
        }
    }
}

#[test]
fn splash_banner_lands_near_the_top_left() {
    let mut grid = Grid::new(80, 24);
    grid.render_splash();
    for row in 0..SPLASH_LINE_COUNT {
        let line = splash_line(row);
        let shown = row_text(&grid, row, line.chars().count() as u16);
        assert_eq!(shown, line);
    }
    assert_eq!(
        row_text(&grid, 14, 35),
        "          Press [spacebar] to start"
    );
    // The banner's first row is blank, as the text starts with a break.
    assert_eq!(row_text(&grid, 0, 10), "          ");
}

#[test]
fn splash_lines_cover_the_whole_banner() {
    assert_eq!(SPLASH_LINE_COUNT, 15);
    assert_eq!(splash_line(0), "");
    assert_eq!(splash_line(14), "          Press [spacebar] to start");
}

#[test]
fn planning_line_lands_at_the_top_left() {
    let mut grid = Grid::new(80, 24);
    grid.render_planning();
    assert_eq!(row_text(&grid, 0, 28), "Press [esc] when you're done");
}

#[test]
fn tables_draws_face_and_chair() {
    let mut grid = Grid::new(80, 24);
    let state = world_with_one_hacker();
    let r = grid.render_tables(&state.hackers);
    assert!(r.is_ok());
    assert_eq!(grid.get_cell(5, 5), '\u{1F641}');
    assert_eq!(grid.get_cell(5, 6), '\u{1F4BA}');
    assert_eq!(grid.get_cell(5, 7), ' ');
}

#[test]
fn tables_draws_entities_in_world_order() {
    // Two hackers at the same spot: the later one draws on top.
    let mut grid = Grid::new(20, 20);
    let mut state = world_with_one_hacker();
    let mut second = Hacker::default();
    second.position = (5, 5);
    second.sit_state = HackerSitState::Standing;
    state.hackers.push(second);
    let r = grid.render_tables(&state.hackers);
    assert!(r.is_ok());
    assert_eq!(grid.get_cell(5, 5), '\u{1F642}');
    assert_eq!(grid.get_cell(5, 6), '\u{4DCB}');
}

#[test]
fn tables_flags_the_first_entity_off_the_surface() {
    let mut grid = Grid::new(10, 10);
    grid.set_cell(3, 3, 'q');
    let mut state = world_with_one_hacker();
    let mut low = Hacker::default();
    // The face fits on the last row, but the chair would fall below it.
    low.position = (0, 9);
    state.hackers.push(low);
    let r = grid.render_tables(&state.hackers);
    assert_eq!(r, Err(SurfaceError::OutOfBounds(1)));
    // Nothing was drawn: the grid is exactly as before.
    assert_eq!(grid.get_cell(3, 3), 'q');
    assert_eq!(grid.get_cell(5, 5), ' ');
}

#[test]
fn tick_renders_the_screen_reached_this_tick() {
    // The status change made by the input is visible in the very same
    // tick's rendering: space on Splash renders the planning screen.
    let mut grid = Grid::new(80, 24);
    let mut state = world_with_one_hacker();
    let r = tick(
        GameStatus::Splash,
        &mut state,
        TickInput::Key(KeyEvent::Char(' ')),
        &mut grid,
    );
    assert_eq!(r, Ok((GameStatus::Planning, LoopAction::Continue)));
    assert_eq!(row_text(&grid, 0, 28), "Press [esc] when you're done");
}

#[test]
fn tick_without_input_still_renders() {
    let mut grid = Grid::new(80, 24);
    let mut state = world_with_one_hacker();
    let r = tick(GameStatus::Splash, &mut state, TickInput::NoEvent, &mut grid);
    assert_eq!(r, Ok((GameStatus::Splash, LoopAction::Continue)));
    assert_eq!(
        row_text(&grid, 14, 35),
        "          Press [spacebar] to start"
    );
}

#[test]
fn tick_on_exit_renders_nothing() {
    let mut grid = Grid::new(80, 24);
    let mut state = world_with_one_hacker();
    let r = tick(
        GameStatus::Splash,
        &mut state,
        TickInput::Key(KeyEvent::Ctrl('c')),
        &mut grid,
    );
    assert_eq!(r, Ok((GameStatus::Splash, LoopAction::ExitSuccess)));
    for col in 0..80 {
        assert_eq!(grid.get_cell(col, 14), ' ');
    }
    let r = tick(GameStatus::Planning, &mut state, TickInput::DecodeFailure, &mut grid);
    assert_eq!(r, Ok((GameStatus::Planning, LoopAction::ExitFailure)));
    assert_eq!(grid.get_cell(0, 0), ' ');
}

#[test]
fn tick_flags_an_entity_off_the_surface() {
    let mut grid = Grid::new(4, 4);
    let mut state = world_with_one_hacker();
    let r = tick(GameStatus::Tables, &mut state, TickInput::NoEvent, &mut grid);
    assert_eq!(r, Err(SurfaceError::OutOfBounds(0)));
    assert_eq!(grid.get_cell(0, 0), ' ');
}

#[test]
fn switching_screens_does_not_clear_old_cells() {
    // Known cosmetic artifact, kept on purpose: the tables screen only
    // draws its entities, so splash text outside those cells survives.
    let mut grid = Grid::new(80, 24);
    let mut state = world_with_one_hacker();
    tick(GameStatus::Splash, &mut state, TickInput::NoEvent, &mut grid).unwrap();
    tick(GameStatus::Tables, &mut state, TickInput::NoEvent, &mut grid).unwrap();
    assert_eq!(grid.get_cell(5, 5), '\u{1F641}');
    assert_eq!(
        row_text(&grid, 14, 35),
        "          Press [spacebar] to start"
    );
}
