use tetris_rules::catalog::{Color, MatrixPosition, TetrominoType};
use tetris_rules::random::random_tetromino_type;
use tetris_rules::rotation::rotate_tetromino_block;
use tetris_rules::tetromino::{blocks_from_type, spawn_current_tetromino};

const KINDS: [TetrominoType; 7] = [
    TetrominoType::I,
    TetrominoType::O,
    TetrominoType::T,
    TetrominoType::S,
    TetrominoType::Z,
    TetrominoType::L,
    TetrominoType::J,
];

fn indices(kind: TetrominoType) -> Vec<(i32, i32)> {
    kind.block_indices().iter().map(|p| (p.x, p.y)).collect()
}

#[test]
fn matrix_sizes() {
    assert_eq!(TetrominoType::I.matrix_size(), 4);
    assert_eq!(TetrominoType::O.matrix_size(), 4);
    assert_eq!(TetrominoType::T.matrix_size(), 3);
    assert_eq!(TetrominoType::S.matrix_size(), 3);
    assert_eq!(TetrominoType::Z.matrix_size(), 3);
    assert_eq!(TetrominoType::L.matrix_size(), 3);
    assert_eq!(TetrominoType::J.matrix_size(), 3);
}

#[test]
fn shapes_of_the_seven_kinds() {
    assert_eq!(indices(TetrominoType::I), vec![(1, 3), (1, 2), (1, 1), (1, 0)]);
    assert_eq!(indices(TetrominoType::O), vec![(1, 1), (1, 2), (2, 1), (2, 2)]);
    assert_eq!(indices(TetrominoType::T), vec![(0, 1), (1, 1), (2, 1), (1, 2)]);
    assert_eq!(indices(TetrominoType::S), vec![(0, 2), (1, 2), (1, 1), (2, 1)]);
    assert_eq!(indices(TetrominoType::Z), vec![(2, 2), (1, 2), (1, 1), (0, 1)]);
    assert_eq!(indices(TetrominoType::L), vec![(0, 2), (0, 1), (1, 1), (2, 1)]);
    assert_eq!(indices(TetrominoType::J), vec![(0, 1), (1, 1), (2, 1), (2, 2)]);
}

#[test]
fn shapes_have_four_distinct_indices_inside_the_matrix() {
    for kind in KINDS {
        let cells = indices(kind);
        assert_eq!(cells.len(), 4);
        for (i, a) in cells.iter().enumerate() {
            assert!(0 <= a.0 && a.0 < kind.matrix_size());
            assert!(0 <= a.1 && a.1 < kind.matrix_size());
            for b in cells.iter().skip(i + 1) {
                assert_ne!(a, b);
            }
        }
    }
}

#[test]
fn colors_of_the_seven_kinds() {
    assert_eq!(TetrominoType::I.color(), Color { red: 0, green: 70, blue: 70 });
    assert_eq!(TetrominoType::O.color(), Color { red: 70, green: 70, blue: 0 });
    assert_eq!(TetrominoType::T.color(), Color { red: 70, green: 0, blue: 70 });
    assert_eq!(TetrominoType::S.color(), Color { red: 70, green: 0, blue: 0 });
    assert_eq!(TetrominoType::Z.color(), Color { red: 0, green: 70, blue: 0 });
    assert_eq!(TetrominoType::L.color(), Color { red: 0, green: 0, blue: 70 });
    assert_eq!(TetrominoType::J.color(), Color { red: 90, green: 25, blue: 0 });
}

#[test]
fn kinds_by_index() {
    for (i, kind) in KINDS.iter().enumerate() {
        assert_eq!(TetrominoType::from_index(i as i32), *kind);
    }
    assert_eq!(TetrominoType::from_index(7), TetrominoType::J);
    assert_eq!(TetrominoType::from_index(-1), TetrominoType::J);
    assert_eq!(TetrominoType::from_index(i32::MAX), TetrominoType::J);
}

#[test]
fn blocks_from_type_start_at_their_indices() {
    for kind in KINDS {
        let blocks = blocks_from_type(kind);
        let cells = kind.block_indices();
        for i in 0..4 {
            assert_eq!(blocks[i].index, cells[i]);
            assert_eq!(blocks[i].position, cells[i]);
        }
    }
}

#[test]
fn clockwise_turn_formula() {
    let mut index = MatrixPosition { x: 0, y: 1 };
    rotate_tetromino_block(&mut index, 3, true);
    assert_eq!(index, MatrixPosition { x: 1, y: 2 });
    let mut index = MatrixPosition { x: 1, y: 3 };
    rotate_tetromino_block(&mut index, 4, true);
    assert_eq!(index, MatrixPosition { x: 3, y: 2 });
    let mut index = MatrixPosition { x: 1, y: 1 };
    rotate_tetromino_block(&mut index, 3, true);
    assert_eq!(index, MatrixPosition { x: 1, y: 1 });
}

#[test]
fn counter_clockwise_turn_formula() {
    let mut index = MatrixPosition { x: 0, y: 1 };
    rotate_tetromino_block(&mut index, 3, false);
    assert_eq!(index, MatrixPosition { x: 1, y: 0 });
    let mut index = MatrixPosition { x: 1, y: 3 };
    rotate_tetromino_block(&mut index, 4, false);
    assert_eq!(index, MatrixPosition { x: 0, y: 1 });
}

#[test]
fn four_clockwise_turns_restore_every_index() {
    for size in [3, 4] {
        for x in 0..size {
            for y in 0..size {
                let start = MatrixPosition { x, y };
                let mut index = start;
                for turn in 1..=4 {
                    rotate_tetromino_block(&mut index, size, true);
                    assert!(0 <= index.x && index.x < size && 0 <= index.y && index.y < size);
                    if turn < 4 && (2 * x != size - 1 || 2 * y != size - 1) {
                        assert_ne!(index, start);
                    }
                }
                assert_eq!(index, start);
            }
        }
    }
}

#[test]
fn four_counter_clockwise_turns_restore_every_index() {
    for size in [3, 4] {
        for x in 0..size {
            for y in 0..size {
                let start = MatrixPosition { x, y };
                let mut index = start;
                for _ in 0..4 {
                    rotate_tetromino_block(&mut index, size, false);
                }
                assert_eq!(index, start);
            }
        }
    }
}

#[test]
fn opposite_turns_cancel() {
    for size in [3, 4] {
        for x in 0..size {
            for y in 0..size {
                let start = MatrixPosition { x, y };
                let mut index = start;
                rotate_tetromino_block(&mut index, size, true);
                rotate_tetromino_block(&mut index, size, false);
                assert_eq!(index, start);
            }
        }
    }
}

#[test]
fn spawn_positions_of_the_seven_kinds() {
    for kind in KINDS {
        let piece = spawn_current_tetromino(kind);
        assert_eq!(piece.tetromino_type(), kind);
        let blocks = piece.blocks();
        let cells = kind.block_indices();
        for i in 0..4 {
            assert_eq!(blocks[i].index, cells[i]);
            assert_eq!(blocks[i].position.x, cells[i].x + 3);
            assert_eq!(blocks[i].position.y, 22 - kind.matrix_size() + cells[i].y);
        }
    }
    let t = spawn_current_tetromino(TetrominoType::T).blocks();
    let at: Vec<(i32, i32)> = t.iter().map(|b| (b.position.x, b.position.y)).collect();
    assert_eq!(at, vec![(3, 20), (4, 20), (5, 20), (4, 21)]);
    let i = spawn_current_tetromino(TetrominoType::I).blocks();
    let at: Vec<(i32, i32)> = i.iter().map(|b| (b.position.x, b.position.y)).collect();
    assert_eq!(at, vec![(4, 21), (4, 20), (4, 19), (4, 18)]);
}

#[test]
fn random_kinds_vary() {
    let first = random_tetromino_type();
    let mut seen_other = false;
    let mut seen_not_j = false;
    for _ in 0..2000 {
        let kind = random_tetromino_type();
        if kind != first {
            seen_other = true;
        }
        if kind != TetrominoType::J {
            seen_not_j = true;
        }
    }
    assert!(seen_other);
    assert!(seen_not_j);
}

#[test]
fn random_kinds_cover_all_seven() {
    let mut seen = [false; 7];
    for _ in 0..5000 {
        let kind = random_tetromino_type();
        let at = KINDS.iter().position(|k| *k == kind).unwrap();
        seen[at] = true;
    }
    assert_eq!(seen, [true; 7]);
}
