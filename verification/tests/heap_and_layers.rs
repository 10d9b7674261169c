use tetris_rules::catalog::{MatrixPosition, TetrominoType};
use tetris_rules::heap::{Heap, HEIGHT, WIDTH};

fn at(x: i32, y: i32) -> MatrixPosition {
    MatrixPosition { x, y }
}

fn fill_layer(heap: &mut Heap, y: i32, kind: TetrominoType) {
    for x in 0..WIDTH {
        assert!(heap.insert(at(x, y), kind));
    }
}

fn occupied(heap: &Heap) -> Vec<(i32, i32)> {
    let mut cells: Vec<(i32, i32)> = heap.blocks().iter().map(|b| (b.0.x, b.0.y)).collect();
    cells.sort();
    cells
}

#[test]
fn dimensions() {
    assert_eq!(WIDTH, 10);
    assert_eq!(HEIGHT, 22);
}

#[test]
fn new_heap_is_empty() {
    let heap = Heap::new();
    for y in -1..=HEIGHT {
        for x in -1..=WIDTH {
            assert!(!heap.is_occupied(at(x, y)));
            assert_eq!(heap.get(at(x, y)), None);
        }
    }
    assert!(heap.blocks().is_empty());
}

#[test]
fn insert_and_get() {
    let mut heap = Heap::new();
    assert!(heap.insert(at(3, 4), TetrominoType::S));
    assert!(heap.is_occupied(at(3, 4)));
    assert_eq!(heap.get(at(3, 4)), Some(TetrominoType::S));
    assert!(!heap.is_occupied(at(4, 3)));
    assert!(!heap.is_occupied(at(3, 5)));
    assert!(!heap.is_occupied(at(2, 4)));
    assert_eq!(occupied(&heap), vec![(3, 4)]);
}

#[test]
fn insert_twice_keeps_one_block() {
    let mut heap = Heap::new();
    assert!(heap.insert(at(3, 4), TetrominoType::S));
    assert!(heap.insert(at(3, 4), TetrominoType::L));
    assert_eq!(heap.get(at(3, 4)), Some(TetrominoType::L));
    assert_eq!(heap.blocks().len(), 1);
}

#[test]
fn nothing_settles_outside_the_matrix() {
    let mut heap = Heap::new();
    assert!(!heap.insert(at(-1, 0), TetrominoType::I));
    assert!(!heap.insert(at(WIDTH, 0), TetrominoType::I));
    assert!(!heap.insert(at(0, -1), TetrominoType::I));
    assert!(!heap.insert(at(0, HEIGHT), TetrominoType::I));
    assert!(!heap.insert(at(i32::MAX, i32::MIN), TetrominoType::I));
    assert!(heap.blocks().is_empty());
    assert!(heap.insert(at(0, 0), TetrominoType::I));
    assert!(heap.insert(at(WIDTH - 1, HEIGHT - 1), TetrominoType::I));
    assert_eq!(occupied(&heap), vec![(0, 0), (9, 21)]);
}

#[test]
fn blocks_lists_each_block_once_with_its_kind() {
    let mut heap = Heap::new();
    heap.insert(at(0, 0), TetrominoType::I);
    heap.insert(at(9, 0), TetrominoType::O);
    heap.insert(at(5, 7), TetrominoType::T);
    heap.insert(at(5, 7), TetrominoType::Z);
    let mut blocks: Vec<((i32, i32), TetrominoType)> =
        heap.blocks().iter().map(|b| ((b.0.x, b.0.y), b.1)).collect();
    blocks.sort_by_key(|b| b.0);
    assert_eq!(
        blocks,
        vec![
            ((0, 0), TetrominoType::I),
            ((5, 7), TetrominoType::Z),
            ((9, 0), TetrominoType::O),
        ]
    );
}

#[test]
fn layer_is_full_only_with_every_column() {
    let mut heap = Heap::new();
    for x in 0..WIDTH - 1 {
        heap.insert(at(x, 3), TetrominoType::J);
        assert!(!heap.is_layer_full(3));
    }
    heap.insert(at(WIDTH - 1, 3), TetrominoType::J);
    assert!(heap.is_layer_full(3));
    assert!(!heap.is_layer_full(2));
    assert!(!heap.is_layer_full(4));
    assert!(!heap.is_layer_full(-1));
    assert!(!heap.is_layer_full(HEIGHT));
}

#[test]
fn clear_on_empty_heap_does_nothing() {
    let mut heap = Heap::new();
    assert_eq!(heap.clear_full_layers(), 0);
    assert!(heap.blocks().is_empty());
}

#[test]
fn clear_without_full_bottom_layer_does_nothing() {
    let mut heap = Heap::new();
    heap.insert(at(0, 0), TetrominoType::I);
    heap.insert(at(4, 2), TetrominoType::T);
    assert_eq!(heap.clear_full_layers(), 0);
    assert_eq!(occupied(&heap), vec![(0, 0), (4, 2)]);
    assert_eq!(heap.get(at(4, 2)), Some(TetrominoType::T));
}

#[test]
fn line_clear_and_gravity() {
    let mut heap = Heap::new();
    fill_layer(&mut heap, 0, TetrominoType::I);
    heap.insert(at(0, 1), TetrominoType::T);
    assert_eq!(heap.clear_full_layers(), 1);
    assert_eq!(occupied(&heap), vec![(0, 0)]);
    assert_eq!(heap.get(at(0, 0)), Some(TetrominoType::T));
    for x in 1..WIDTH {
        assert!(!heap.is_occupied(at(x, 0)));
    }
    for x in 0..WIDTH {
        assert!(!heap.is_occupied(at(x, 1)));
    }
}

#[test]
fn gap_stops_scan() {
    let mut heap = Heap::new();
    fill_layer(&mut heap, 0, TetrominoType::I);
    heap.insert(at(3, 1), TetrominoType::T);
    fill_layer(&mut heap, 2, TetrominoType::O);
    assert_eq!(heap.clear_full_layers(), 1);
    // the layer with the gap is now at the bottom, the full one above it is still there
    assert!(heap.is_layer_full(1));
    assert!(!heap.is_layer_full(0));
    assert_eq!(heap.blocks().len(), 11);
    assert_eq!(heap.get(at(3, 0)), Some(TetrominoType::T));
    for x in 0..WIDTH {
        assert_eq!(heap.get(at(x, 1)), Some(TetrominoType::O));
        assert!(!heap.is_occupied(at(x, 2)));
    }
    // and it stays as long as the bottom layer has a gap
    assert_eq!(heap.clear_full_layers(), 0);
    assert!(heap.is_layer_full(1));
    assert_eq!(heap.blocks().len(), 11);
}

#[test]
fn adjacent_full_layers_on_the_floor_go_together() {
    let mut heap = Heap::new();
    fill_layer(&mut heap, 0, TetrominoType::I);
    fill_layer(&mut heap, 1, TetrominoType::O);
    heap.insert(at(2, 2), TetrominoType::Z);
    heap.insert(at(7, 5), TetrominoType::L);
    assert_eq!(heap.clear_full_layers(), 2);
    assert_eq!(occupied(&heap), vec![(2, 0), (7, 3)]);
    assert_eq!(heap.get(at(2, 0)), Some(TetrominoType::Z));
    assert_eq!(heap.get(at(7, 3)), Some(TetrominoType::L));
}

#[test]
fn full_layer_above_the_floor_stays() {
    let mut heap = Heap::new();
    fill_layer(&mut heap, 1, TetrominoType::I);
    assert_eq!(heap.clear_full_layers(), 0);
    assert!(heap.is_layer_full(1));
    assert_eq!(heap.blocks().len(), 10);
}

#[test]
fn clear_a_matrix_that_is_full() {
    let mut heap = Heap::new();
    for y in 0..HEIGHT {
        fill_layer(&mut heap, y, TetrominoType::S);
    }
    assert_eq!(heap.blocks().len(), 220);
    assert_eq!(heap.clear_full_layers(), 22);
    assert!(heap.blocks().is_empty());
}

#[test]
fn clear_brings_the_top_layer_down() {
    let mut heap = Heap::new();
    fill_layer(&mut heap, 0, TetrominoType::I);
    heap.insert(at(9, HEIGHT - 1), TetrominoType::J);
    assert_eq!(heap.clear_full_layers(), 1);
    assert_eq!(occupied(&heap), vec![(9, HEIGHT - 2)]);
}
