use tetris_rules::catalog::{MatrixPosition, TetrominoType};
use tetris_rules::collision::check_tetromino_positions;
use tetris_rules::game::{Game, TickReport};
use tetris_rules::heap::{Heap, HEIGHT, WIDTH};
use tetris_rules::movement::{Input, MoveOutcome};
use tetris_rules::tetromino::{place_tetromino, spawn_current_tetromino, CurrentTetromino};
use tetris_rules::timer::{SoftDropTimer, SOFT_DROP_PERIOD};

const IDLE: Input = Input {
    left: false,
    right: false,
    down: false,
    hard_drop: false,
    rotate_clockwise: false,
    rotate_counter_clockwise: false,
};

const DROP: Input = Input {
    left: false,
    right: false,
    down: false,
    hard_drop: true,
    rotate_clockwise: false,
    rotate_counter_clockwise: false,
};

fn at(x: i32, y: i32) -> MatrixPosition {
    MatrixPosition { x, y }
}

fn cells(piece: &CurrentTetromino) -> Vec<(i32, i32)> {
    piece.blocks().iter().map(|b| (b.position.x, b.position.y)).collect()
}

fn occupied(heap: &Heap) -> Vec<(i32, i32)> {
    let mut cells: Vec<(i32, i32)> = heap.blocks().iter().map(|b| (b.0.x, b.0.y)).collect();
    cells.sort();
    cells
}

fn in_matrix(game: &Game) -> bool {
    let piece = cells(game.current());
    let heap = occupied(game.heap());
    piece.iter().chain(heap.iter()).all(|c| 0 <= c.0 && c.0 < WIDTH && 0 <= c.1 && c.1 < HEIGHT)
}

fn clear_of_heap(game: &Game) -> bool {
    let piece = cells(game.current());
    let heap = occupied(game.heap());
    let mut distinct = heap.clone();
    distinct.dedup();
    distinct.len() == heap.len() && piece.iter().all(|c| !heap.contains(c))
}

#[test]
fn timer_fires_when_the_period_is_full() {
    let mut timer = SoftDropTimer::soft_drop();
    assert_eq!(timer.period(), 450_000_000);
    assert_eq!(SOFT_DROP_PERIOD, 450_000_000);
    assert_eq!(timer.elapsed(), 0);
    assert!(!timer.tick(449_999_999));
    assert_eq!(timer.elapsed(), 449_999_999);
    assert!(timer.tick(1));
    assert_eq!(timer.elapsed(), 0);
}

#[test]
fn timer_keeps_what_is_left_over() {
    let mut timer = SoftDropTimer::new(100).unwrap();
    assert!(!timer.tick(0));
    assert!(!timer.tick(60));
    assert!(timer.tick(60));
    assert_eq!(timer.elapsed(), 20);
    assert!(timer.tick(280));
    assert_eq!(timer.elapsed(), 0);
    assert!(timer.tick(u64::MAX));
    assert_eq!(timer.elapsed(), u64::MAX % 100);
    assert_eq!(timer.period(), 100);
}

#[test]
fn timer_with_no_period_is_refused() {
    assert!(SoftDropTimer::new(0).is_none());
    assert!(SoftDropTimer::new(1).is_some());
    let mut timer = SoftDropTimer::new(1).unwrap();
    assert!(!timer.tick(0));
    assert!(timer.tick(1));
    assert!(timer.tick(7));
    assert_eq!(timer.elapsed(), 0);
}

#[test]
fn new_game_with_first() {
    let game = Game::with_first(TetrominoType::S);
    assert!(game.heap().blocks().is_empty());
    assert_eq!(game.current().tetromino_type(), TetrominoType::S);
    assert_eq!(cells(game.current()), cells(&spawn_current_tetromino(TetrominoType::S)));
    assert_eq!(game.soft_drop_timer().elapsed(), 0);
    assert_eq!(game.soft_drop_timer().period(), 450_000_000);
    assert!(in_matrix(&game));
}

#[test]
fn new_game_draws_its_first_tetromino() {
    let mut seen_other = false;
    let first = Game::new().current().tetromino_type();
    for _ in 0..500 {
        let game = Game::new();
        let kind = game.current().tetromino_type();
        assert_eq!(cells(game.current()), cells(&spawn_current_tetromino(kind)));
        assert!(game.heap().blocks().is_empty());
        if kind != first {
            seen_other = true;
        }
    }
    assert!(seen_other);
}

#[test]
fn idle_tick_changes_nothing_but_the_timer() {
    let mut game = Game::with_first(TetrominoType::T);
    let report = game.tick_with(IDLE, 1_000, TetrominoType::O);
    assert_eq!(report, TickReport { outcome: MoveOutcome::Moved, cleared_layers: 0 });
    assert_eq!(cells(game.current()), vec![(3, 20), (4, 20), (5, 20), (4, 21)]);
    assert_eq!(game.soft_drop_timer().elapsed(), 1_000);
    assert!(game.heap().blocks().is_empty());
}

#[test]
fn soft_drop_timer_moves_the_tetromino_down() {
    let mut game = Game::with_first(TetrominoType::T);
    let report = game.tick_with(IDLE, 449_999_999, TetrominoType::O);
    assert_eq!(report.outcome, MoveOutcome::Moved);
    assert_eq!(cells(game.current()), vec![(3, 20), (4, 20), (5, 20), (4, 21)]);
    let report = game.tick_with(IDLE, 1, TetrominoType::O);
    assert_eq!(report.outcome, MoveOutcome::Moved);
    assert_eq!(cells(game.current()), vec![(3, 19), (4, 19), (5, 19), (4, 20)]);
    let report = game.tick_with(IDLE, 1, TetrominoType::O);
    assert_eq!(report.outcome, MoveOutcome::Moved);
    assert_eq!(cells(game.current()), vec![(3, 19), (4, 19), (5, 19), (4, 20)]);
}

#[test]
fn timer_runs_on_a_hard_drop_tick() {
    let mut game = Game::with_first(TetrominoType::T);
    game.tick_with(DROP, 400_000_000, TetrominoType::O);
    assert_eq!(game.soft_drop_timer().elapsed(), 400_000_000);
    // the timer fires on the next tick and the new tetromino goes down by one
    let report = game.tick_with(IDLE, 50_000_000, TetrominoType::O);
    assert_eq!(report.outcome, MoveOutcome::Moved);
    assert_eq!(cells(game.current()), vec![(4, 18), (4, 19), (5, 18), (5, 19)]);
}

#[test]
fn hard_drop_locks_and_spawns() {
    let mut game = Game::with_first(TetrominoType::I);
    let report = game.tick_with(DROP, 0, TetrominoType::T);
    assert_eq!(report, TickReport { outcome: MoveOutcome::Dropped, cleared_layers: 0 });
    assert_eq!(occupied(game.heap()), vec![(4, 0), (4, 1), (4, 2), (4, 3)]);
    assert_eq!(game.heap().get(at(4, 2)), Some(TetrominoType::I));
    assert_eq!(game.current().tetromino_type(), TetrominoType::T);
    assert_eq!(cells(game.current()), vec![(3, 20), (4, 20), (5, 20), (4, 21)]);
}

#[test]
fn lock_that_fills_the_bottom_layer_clears_it() {
    let mut heap = Heap::new();
    for x in 0..WIDTH {
        if x != 4 {
            heap.insert(at(x, 0), TetrominoType::O);
        }
    }
    heap.insert(at(0, 1), TetrominoType::Z);
    let piece = spawn_current_tetromino(TetrominoType::I);
    let mut game = Game::from_parts(heap, piece, SoftDropTimer::soft_drop());
    let report = game.tick_with(DROP, 0, TetrominoType::J);
    assert_eq!(report, TickReport { outcome: MoveOutcome::Dropped, cleared_layers: 1 });
    assert_eq!(occupied(game.heap()), vec![(0, 0), (4, 0), (4, 1), (4, 2)]);
    assert_eq!(game.heap().get(at(0, 0)), Some(TetrominoType::Z));
    assert_eq!(game.heap().get(at(4, 0)), Some(TetrominoType::I));
    assert_eq!(game.current().tetromino_type(), TetrominoType::J);
}

#[test]
fn clear_runs_on_every_tick() {
    let mut heap = Heap::new();
    for x in 0..WIDTH {
        heap.insert(at(x, 0), TetrominoType::O);
        heap.insert(at(x, 2), TetrominoType::O);
    }
    heap.insert(at(5, 1), TetrominoType::S);
    let piece = spawn_current_tetromino(TetrominoType::I);
    let mut game = Game::from_parts(heap, piece, SoftDropTimer::soft_drop());
    let report = game.tick_with(IDLE, 0, TetrominoType::J);
    assert_eq!(report, TickReport { outcome: MoveOutcome::Moved, cleared_layers: 1 });
    assert_eq!(game.heap().blocks().len(), 11);
    assert!(game.heap().is_layer_full(1));
    let report = game.tick_with(IDLE, 0, TetrominoType::J);
    assert_eq!(report, TickReport { outcome: MoveOutcome::Moved, cleared_layers: 0 });
    assert_eq!(game.heap().blocks().len(), 11);
}

#[test]
fn bounds_and_no_overlap_over_a_game() {
    let kinds = [
        TetrominoType::I,
        TetrominoType::O,
        TetrominoType::T,
        TetrominoType::S,
        TetrominoType::Z,
        TetrominoType::L,
        TetrominoType::J,
    ];
    let mut game = Game::with_first(TetrominoType::T);
    let mut locked = 0;
    for step in 0..400usize {
        let input = Input {
            left: step % 3 == 0,
            right: step % 5 == 0,
            down: step % 2 == 0,
            hard_drop: step % 29 == 28,
            rotate_clockwise: false,
            rotate_counter_clockwise: false,
        };
        let before = game.heap().blocks().len();
        let report = game.tick_with(input, 100_000_000, kinds[step % 7]);
        match report.outcome {
            MoveOutcome::Locked | MoveOutcome::Dropped => {
                locked += 1;
                let after = game.heap().blocks().len();
                assert_eq!(after + 10 * report.cleared_layers, before + 4);
                assert_eq!(game.current().tetromino_type(), kinds[step % 7]);
                assert_eq!(
                    cells(game.current()),
                    cells(&spawn_current_tetromino(kinds[step % 7]))
                );
                if !check_tetromino_positions(game.current(), game.heap()) {
                    // the heap has reached the top: the game is over
                    break;
                }
            }
            _ => {
                assert_eq!(game.heap().blocks().len(), before);
            }
        }
        assert!(in_matrix(&game));
        assert!(clear_of_heap(&game));
        assert!(!game.heap().is_layer_full(0));
    }
    assert!(locked > 3);
}

#[test]
fn rotations_in_open_space_stay_in_the_matrix() {
    let mut game = Game::with_first(TetrominoType::I);
    for step in 0..200usize {
        let input = Input {
            left: step % 4 == 1,
            right: step % 7 == 2,
            down: false,
            hard_drop: false,
            rotate_clockwise: step % 2 == 0,
            rotate_counter_clockwise: step % 3 == 0,
        };
        let report = game.tick_with(input, 0, TetrominoType::O);
        assert_eq!(report.outcome, MoveOutcome::Moved);
        assert!(in_matrix(&game));
    }
}

#[test]
fn four_clockwise_ticks_restore_the_tetromino() {
    let piece = place_tetromino(TetrominoType::L, at(4, 10)).unwrap();
    let mut game = Game::from_parts(Heap::new(), piece, SoftDropTimer::soft_drop());
    let input = Input { rotate_clockwise: true, ..IDLE };
    for _ in 0..4 {
        let report = game.tick_with(input, 0, TetrominoType::O);
        assert_eq!(report.outcome, MoveOutcome::Moved);
    }
    let blocks = game.current().blocks();
    let start = piece.blocks();
    for i in 0..4 {
        assert_eq!(blocks[i].index, start[i].index);
        assert_eq!(blocks[i].position, start[i].position);
    }
}

#[test]
fn new_tetromino_that_finds_no_room_overlaps_the_heap() {
    let mut heap = Heap::new();
    heap.insert(at(4, 20), TetrominoType::O);
    let piece = place_tetromino(TetrominoType::T, at(3, -1)).unwrap();
    let mut game = Game::from_parts(heap, piece, SoftDropTimer::soft_drop());
    let report = game.tick_with(DROP, 0, TetrominoType::T);
    assert_eq!(report.outcome, MoveOutcome::Dropped);
    assert!(!check_tetromino_positions(game.current(), game.heap()));
    // a hard drop then lifts it by one layer, and the block above the matrix does not settle
    let report = game.tick_with(DROP, 0, TetrominoType::T);
    assert_eq!(report.outcome, MoveOutcome::Dropped);
    assert_eq!(
        occupied(game.heap()),
        vec![(3, 0), (3, 21), (4, 0), (4, 1), (4, 20), (4, 21), (5, 0), (5, 21)]
    );
}

#[test]
fn random_tick_spawns_where_tetrominoes_enter() {
    for _ in 0..50 {
        let mut game = Game::with_first(TetrominoType::O);
        let report = game.tick(DROP, 0);
        assert_eq!(report, TickReport { outcome: MoveOutcome::Dropped, cleared_layers: 0 });
        assert_eq!(occupied(game.heap()), vec![(4, 0), (4, 1), (5, 0), (5, 1)]);
        let kind = game.current().tetromino_type();
        assert_eq!(cells(game.current()), cells(&spawn_current_tetromino(kind)));
        let report = game.tick(Input { left: true, ..IDLE }, 450_000_000);
        assert_eq!(report.outcome, MoveOutcome::Moved);
        assert_eq!(
            cells(game.current()),
            cells(&spawn_current_tetromino(kind).shifted(-1, -1))
        );
    }
}
