use langstons_ant::Ant;
use langstons_ant::Cell;
use langstons_ant::Direction;
use langstons_ant::Universe;

/// A 17x17 all-White universe with the ant at the given position, facing Up.
fn universe_with_ant_at(row: u32, col: u32) -> Universe {
    Universe {
        width: 17,
        height: 17,
        cells: vec![Cell::White; 289],
        ant: Ant::new(row, col),
        history: vec![],
    }
}

#[test]
fn test_new_initial_state() {
    let u = Universe::new();
    assert_eq!(u.width(), 17);
    assert_eq!(u.height(), 17);
    assert_eq!(u.cells().len(), 289);
    assert!(u.cells().iter().all(|c| *c == Cell::White));
    assert_eq!(u.ant_row(), 8);
    assert_eq!(u.ant_col(), 8);
    assert_eq!(u.ant.direction, Direction::Up);
    assert_eq!(u.history.len(), 0);
}

#[test]
fn test_first_tick() {
    let mut u = Universe::new();
    u.tick();
    assert_eq!(u.cells()[144], Cell::Black);
    assert_eq!(u.ant.direction, Direction::Left);
    assert_eq!(u.ant_row(), 8);
    assert_eq!(u.ant_col(), 7);
}

#[test]
fn test_second_tick() {
    let mut u = Universe::new();
    u.tick();
    u.tick();
    assert_eq!(u.cells()[143], Cell::Black);
    assert_eq!(u.ant.direction, Direction::Down);
    assert_eq!(u.ant_row(), 9);
    assert_eq!(u.ant_col(), 7);
}

#[test]
fn test_boundary_stall() {
    let mut u = universe_with_ant_at(0, 0);
    u.tick();
    assert_eq!(u.cells()[0], Cell::Black);
    assert_eq!(u.ant.direction, Direction::Left);
    assert_eq!(u.ant_row(), 0);
    assert_eq!(u.ant_col(), 0);
}

#[test]
fn test_tick_rewind_round_trip() {
    let mut u = Universe::new();
    let cells_before = u.cells().clone();
    for _ in 0..3 {
        u.tick();
    }
    for _ in 0..3 {
        u.step_backward();
    }
    assert_eq!(u.cells(), &cells_before);
    assert_eq!(u.ant_row(), 8);
    assert_eq!(u.ant_col(), 8);
    assert_eq!(u.ant.direction, Direction::Up);
    assert_eq!(u.history.len(), 0);
}

#[test]
fn test_rewind_on_fresh_universe() {
    let mut u = Universe::new();
    u.step_backward();
    assert_eq!(u.width(), 17);
    assert_eq!(u.height(), 17);
    assert!(u.cells().iter().all(|c| *c == Cell::White));
    assert_eq!(u.ant_row(), 8);
    assert_eq!(u.ant_col(), 8);
    assert_eq!(u.ant.direction, Direction::Up);
    assert_eq!(u.history.len(), 0);
}

#[test]
fn test_rewind_more_often_than_ticked() {
    let mut u = Universe::new();
    u.tick();
    u.tick();
    for _ in 0..5 {
        u.step_backward();
    }
    assert!(u.cells().iter().all(|c| *c == Cell::White));
    assert_eq!(u.ant_row(), 8);
    assert_eq!(u.ant_col(), 8);
    assert_eq!(u.ant.direction, Direction::Up);
    assert_eq!(u.history.len(), 0);
}

#[test]
fn test_turn_inverse_round_trips() {
    let directions = [Direction::Up, Direction::Right, Direction::Down, Direction::Left];
    for d in directions {
        let mut a = Ant::new(3, 4);
        a.direction = d;
        a.turn_clockwise();
        a.turn_counter_clockwise();
        assert_eq!(a.direction, d);
        a.turn_counter_clockwise();
        a.turn_clockwise();
        assert_eq!(a.direction, d);
        assert_eq!(a.row, 3);
        assert_eq!(a.col, 4);
    }
}

#[test]
fn test_turn_cycle() {
    let mut a = Ant::new(0, 0);
    assert_eq!(a.direction, Direction::Up);
    a.turn_clockwise();
    assert_eq!(a.direction, Direction::Right);
    a.turn_clockwise();
    assert_eq!(a.direction, Direction::Down);
    a.turn_clockwise();
    assert_eq!(a.direction, Direction::Left);
    a.turn_clockwise();
    assert_eq!(a.direction, Direction::Up);
}

#[test]
fn test_edge_clamps() {
    let mut up = Ant::new(0, 5);
    up.move_forward(17, 17);
    assert_eq!((up.row, up.col), (0, 5));

    let mut down = Ant::new(16, 5);
    down.direction = Direction::Down;
    down.move_forward(17, 17);
    assert_eq!((down.row, down.col), (16, 5));

    let mut left = Ant::new(5, 0);
    left.direction = Direction::Left;
    left.move_forward(17, 17);
    assert_eq!((left.row, left.col), (5, 0));

    let mut right = Ant::new(5, 16);
    right.direction = Direction::Right;
    right.move_forward(17, 17);
    assert_eq!((right.row, right.col), (5, 16));
}

#[test]
fn test_move_forward_interior() {
    let mut up = Ant::new(5, 5);
    up.move_forward(17, 17);
    assert_eq!((up.row, up.col), (4, 5));

    let mut down = Ant::new(5, 5);
    down.direction = Direction::Down;
    down.move_forward(17, 17);
    assert_eq!((down.row, down.col), (6, 5));

    let mut left = Ant::new(5, 5);
    left.direction = Direction::Left;
    left.move_forward(17, 17);
    assert_eq!((left.row, left.col), (5, 4));

    let mut right = Ant::new(5, 5);
    right.direction = Direction::Right;
    right.move_forward(17, 17);
    assert_eq!((right.row, right.col), (5, 6));
}

#[test]
fn test_history_snapshots_pre_step_state() {
    let mut u = Universe::new();
    u.tick();
    assert_eq!(u.history.len(), 1);
    assert!(u.history[0].cells.iter().all(|c| *c == Cell::White));
    assert_eq!(u.history[0].ant.row, 8);
    assert_eq!(u.history[0].ant.col, 8);
    assert_eq!(u.history[0].ant.direction, Direction::Up);

    let cells_after_one = u.cells().clone();
    let ant_after_one = u.ant;
    u.tick();
    assert_eq!(u.history.len(), 2);
    assert_eq!(u.history[1].cells, cells_after_one);
    assert_eq!(u.history[1].ant, ant_after_one);
}

#[test]
fn test_bounds_and_cardinality_over_run() {
    let mut u = Universe::new();
    for _ in 0..100 {
        u.tick();
        assert!(u.ant_row() < u.height());
        assert!(u.ant_col() < u.width());
        assert_eq!(u.cells().len(), (u.width() * u.height()) as usize);
        assert!(u.cells().iter().all(|c| *c == Cell::White || *c == Cell::Black));
    }
    assert_eq!(u.history.len(), 100);
}

#[test]
fn test_tick_flips_black_back_to_white() {
    // Steer the ant so that it revisits a Black cell: from the start, four
    // ticks walk it around a two-by-two block back onto cell (8, 8).
    let mut u = Universe::new();
    for _ in 0..4 {
        u.tick();
    }
    assert_eq!(u.ant_row(), 8);
    assert_eq!(u.ant_col(), 8);
    assert_eq!(u.cells()[144], Cell::Black);
    u.tick();
    // The fifth tick lands on the Black cell at index 144 and flips it back;
    // the cell is now White again, so the ant turns clockwise instead.
    assert_eq!(u.cells()[144], Cell::White);
    assert_eq!(u.ant.direction, Direction::Right);
    assert_eq!(u.ant_row(), 8);
    assert_eq!(u.ant_col(), 9);
}
