//! The matrix and its heap: the blocks that have settled, each at a position
//! of its own inside the matrix, with the kind of tetromino it came from.

use vstd::prelude::*;
use vstd::set_lib::{lemma_int_range, set_int_range};
use crate::catalog::{MatrixPosition, Point, TetrominoType};

verus! {

/// Number of columns of the matrix.
pub const WIDTH: i32 = 10;

/// Number of layers of the matrix.
pub const HEIGHT: i32 = 22;

/// Whether `p` is a position of the matrix. Layer `0` is the bottom one.
pub open spec fn in_matrix(p: Point) -> bool {
    0 <= p.x < WIDTH && 0 <= p.y < HEIGHT
}

/// Whether every block of the heap is at a position of the matrix.
pub open spec fn bounded(heap: Map<Point, TetrominoType>) -> bool {
    forall|p: Point| #[trigger] heap.contains_key(p) ==> in_matrix(p)
}

/// Whether every column of layer `y` holds a block.
pub open spec fn layer_full(heap: Map<Point, TetrominoType>, y: int) -> bool {
    forall|x: int| 0 <= x < WIDTH ==> #[trigger] heap.contains_key(Point { x, y })
}

/// Number of full layers met when going up from layer `y`, before the first
/// layer that is not full.
pub open spec fn full_layers_from(heap: Map<Point, TetrominoType>, y: int) -> nat
    decreases HEIGHT - y,
{
    if 0 <= y < HEIGHT && layer_full(heap, y) {
        1 + full_layers_from(heap, y + 1)
    } else {
        0
    }
}

/// Number of full layers that lie on the floor of the matrix with no layer
/// that is not full below them.
pub open spec fn full_bottom_layers(heap: Map<Point, TetrominoType>) -> nat {
    full_layers_from(heap, 0)
}

/// The heap after its `count` bottom layers are taken out: every block of a
/// higher layer comes down by `count`.
pub open spec fn lowered(heap: Map<Point, TetrominoType>, count: int) -> Map<
    Point,
    TetrominoType,
> {
    Map::new(
        |p: Point| p.y >= 0 && heap.contains_key(Point { x: p.x, y: p.y + count }),
        |p: Point| heap[Point { x: p.x, y: p.y + count }],
    )
}

/// The heap after a block of `kind` settles at `p`. A position outside the
/// matrix holds no block, so nothing settles there.
pub open spec fn with_block(heap: Map<Point, TetrominoType>, p: Point, kind: TetrominoType) -> Map<
    Point,
    TetrominoType,
> {
    if in_matrix(p) {
        heap.insert(p, kind)
    } else {
        heap
    }
}

/// The full layers counted from the floor are exactly the layers below the
/// first one that is not full.
pub proof fn lemma_full_bottom_layers(heap: Map<Point, TetrominoType>)
    ensures
        full_bottom_layers(heap) <= HEIGHT,
        forall|y: int| 0 <= y < full_bottom_layers(heap) ==> layer_full(heap, y),
        full_bottom_layers(heap) < HEIGHT ==> !layer_full(heap, full_bottom_layers(heap) as int),
{
    lemma_full_layers_from(heap, 0);
}

/// A heap inside the matrix has finitely many blocks, no more than the matrix
/// has positions.
pub proof fn lemma_bounded_finite(heap: Map<Point, TetrominoType>)
    requires
        bounded(heap),
    ensures
        heap.dom().finite(),
        heap.dom().len() <= WIDTH * HEIGHT,
{
    let slots = set_int_range(0, WIDTH * HEIGHT);
    lemma_int_range(0, WIDTH * HEIGHT);
    let f = |i: int| point_of_slot(i);
    vstd::set_lib::lemma_map_size_bound(slots, slots.map(f), f);
    assert forall|p: Point| heap.dom().contains(p) implies slots.map(f).contains(p) by {
        assert(slots.contains(slot(p)));
    }
    vstd::set_lib::lemma_len_subset(heap.dom(), slots.map(f));
}

/// Taking no layer out leaves a heap inside the matrix as it is.
pub proof fn lemma_lowered_by_none(heap: Map<Point, TetrominoType>)
    requires
        bounded(heap),
    ensures
        lowered(heap, 0) == heap,
{
}

/// The scan stops at the first gap. When the layers below layer `gap` are
/// full and layer `gap` is not, exactly these `gap` layers are taken out, and
/// every layer from `gap` up, full or not, is kept and comes down by `gap`.
pub proof fn lemma_gap_stops_scan(heap: Map<Point, TetrominoType>, gap: int)
    requires
        bounded(heap),
        0 <= gap < HEIGHT,
        forall|y: int| 0 <= y < gap ==> layer_full(heap, y),
        !layer_full(heap, gap),
    ensures
        full_bottom_layers(heap) == gap,
        forall|p: Point|
            p.y >= gap ==> (heap.contains_key(p) <==> #[trigger] lowered(heap, gap).contains_key(
                Point { x: p.x, y: p.y - gap },
            )),
        forall|p: Point|
            p.y >= gap && heap.contains_key(p) ==> heap[p] == #[trigger] lowered(
                heap,
                gap,
            )[Point { x: p.x, y: p.y - gap }],
        forall|y: int| gap <= y ==> layer_full(heap, y) == layer_full(lowered(heap, gap), y - gap),
{
    lemma_full_bottom_layers(heap);
    let cleared = lowered(heap, gap);
    assert forall|y: int| gap <= y implies layer_full(heap, y) == layer_full(cleared, y - gap) by {
        if layer_full(cleared, y - gap) {
            assert forall|x: int| 0 <= x < WIDTH implies #[trigger] heap.contains_key(
                Point { x, y },
            ) by {
                assert(cleared.contains_key(Point { x, y: y - gap }));
            }
        }
    }
}

/// After the full layers on the floor are taken out, the heap is still inside
/// the matrix and its bottom layer is not full, so that taking them out once
/// more changes nothing.
pub proof fn lemma_cleared_heap(heap: Map<Point, TetrominoType>)
    requires
        bounded(heap),
    ensures
        bounded(lowered(heap, full_bottom_layers(heap) as int)),
        !layer_full(lowered(heap, full_bottom_layers(heap) as int), 0),
        full_bottom_layers(lowered(heap, full_bottom_layers(heap) as int)) == 0,
{
    let count = full_bottom_layers(heap) as int;
    let cleared = lowered(heap, count);
    lemma_full_bottom_layers(heap);
    if layer_full(cleared, 0) {
        assert forall|x: int| 0 <= x < WIDTH implies #[trigger] heap.contains_key(
            Point { x, y: count },
        ) by {
            assert(cleared.contains_key(Point { x, y: 0 }));
        }
        assert(heap.contains_key(Point { x: 0, y: count }));
    }
}

/// The full layers counted from layer `from` are the layers from `from` up to
/// the first one that is not full.
proof fn lemma_full_layers_from(heap: Map<Point, TetrominoType>, from: int)
    requires
        0 <= from <= HEIGHT,
    ensures
        from + full_layers_from(heap, from) <= HEIGHT,
        forall|y: int| from <= y < from + full_layers_from(heap, from) ==> layer_full(heap, y),
        from + full_layers_from(heap, from) < HEIGHT ==> !layer_full(
            heap,
            from + full_layers_from(heap, from),
        ),
    decreases HEIGHT - from,
{
    if from < HEIGHT && layer_full(heap, from) {
        lemma_full_layers_from(heap, from + 1);
    }
}

/// The settled blocks of the matrix.
pub struct Heap {
    /// One cell for each position of the matrix, layer by layer from the
    /// floor, each layer from the first column on.
    cells: Vec<Option<TetrominoType>>,
}

impl View for Heap {
    type V = Map<Point, TetrominoType>;

    /// The settled blocks: each occupied position with the kind of its block.
    closed spec fn view(&self) -> Map<Point, TetrominoType> {
        Map::new(
            |p: Point| in_matrix(p) && self.cells@[slot(p)] is Some,
            |p: Point| self.cells@[slot(p)]->0,
        )
    }
}

/// Where the cell of position `p` is kept: layer by layer from the floor.
spec fn slot(p: Point) -> int {
    p.y * WIDTH + p.x
}

/// The position whose cell is kept at `i`.
spec fn point_of_slot(i: int) -> Point {
    Point { x: i % (WIDTH as int), y: i / (WIDTH as int) }
}

impl Heap {
    /// Validity of the representation.
    pub closed spec fn wf(&self) -> bool {
        self.cells@.len() == WIDTH * HEIGHT
    }

    /// Every settled block lies inside the matrix. That no two blocks share a
    /// position is what it means for the heap to be a map from positions.
    pub proof fn lemma_blocks_in_matrix(&self)
        ensures
            bounded(self@),
    {
    }

    /// A matrix with no settled block.
    pub fn new() -> (heap: Heap)
        ensures
            heap.wf(),
            heap@ == Map::<Point, TetrominoType>::empty(),
    {
        let mut cells: Vec<Option<TetrominoType>> = Vec::new();
        let mut i: i32 = 0;
        while i < WIDTH * HEIGHT
            invariant
                0 <= i <= WIDTH * HEIGHT,
                cells@.len() == i,
                forall|k: int| 0 <= k < i ==> cells@[k] is None,
            decreases WIDTH * HEIGHT - i,
        {
            cells.push(None);
            i = i + 1;
        }
        Heap { cells }
    }

    /// The kind of the block settled at `position`, if there is one. No block
    /// is settled outside the matrix.
    pub fn get(&self, position: MatrixPosition) -> (found: Option<TetrominoType>)
        requires
            self.wf(),
        ensures
            found == (if self@.contains_key(position@) {
                Some(self@[position@])
            } else {
                None
            }),
    {
        if position.x < 0 || position.x >= WIDTH || position.y < 0 || position.y >= HEIGHT {
            None
        } else {
            let i: usize = (position.y * WIDTH + position.x) as usize;
            self.cells[i]
        }
    }

    /// Whether a block is settled at `position`.
    pub fn is_occupied(&self, position: MatrixPosition) -> (occupied: bool)
        requires
            self.wf(),
        ensures
            occupied == self@.contains_key(position@),
    {
        self.get(position).is_some()
    }

    /// Settles a block of `kind` at `position`, in place of any block already
    /// there. Outside the matrix nothing settles; the result tells whether the
    /// position was inside.
    pub fn insert(&mut self, position: MatrixPosition, kind: TetrominoType) -> (inside: bool)
        requires
            old(self).wf(),
        ensures
            final(self).wf(),
            inside == in_matrix(position@),
            final(self)@ == with_block(old(self)@, position@, kind),
    {
        if position.x < 0 || position.x >= WIDTH || position.y < 0 || position.y >= HEIGHT {
            false
        } else {
            let i: usize = (position.y * WIDTH + position.x) as usize;
            self.cells.set(i, Some(kind));
            true
        }
    }

    /// Whether every column of layer `y` holds a settled block.
    pub fn is_layer_full(&self, y: i32) -> (full: bool)
        requires
            self.wf(),
        ensures
            full == layer_full(self@, y as int),
    {
        if y < 0 || y >= HEIGHT {
            assert(!self@.contains_key(Point { x: 0, y: y as int }));
            return false;
        }
        let mut x: i32 = 0;
        while x < WIDTH
            invariant
                self.wf(),
                0 <= y < HEIGHT,
                0 <= x <= WIDTH,
                forall|c: int|
                    0 <= c < x ==> #[trigger] self@.contains_key(Point { x: c, y: y as int }),
            decreases WIDTH - x,
        {
            let i: usize = (y * WIDTH + x) as usize;
            if self.cells[i].is_none() {
                assert(!self@.contains_key(Point { x: x as int, y: y as int }));
                return false;
            }
            x = x + 1;
        }
        true
    }

    /// Takes out the full layers that lie on the floor, up to the first layer
    /// that is not full, and brings every block above them down by as many
    /// layers. A full layer above a layer that is not full stays. Returns the
    /// number of layers taken out.
    pub fn clear_full_layers(&mut self) -> (cleared: usize)
        requires
            old(self).wf(),
        ensures
            final(self).wf(),
            cleared == full_bottom_layers(old(self)@),
            final(self)@ == lowered(old(self)@, cleared as int),
    {
        let mut layers: i32 = 0;
        loop
            invariant
                self.wf(),
                *self == *old(self),
                0 <= layers <= HEIGHT,
                full_bottom_layers(self@) == layers + full_layers_from(self@, layers as int),
            ensures
                full_bottom_layers(self@) == layers,
            decreases HEIGHT - layers,
        {
            if layers >= HEIGHT {
                break ;
            }
            if !self.is_layer_full(layers) {
                break ;
            }
            layers = layers + 1;
        }
        if layers == 0 {
            return 0;
        }
        let total: usize = (WIDTH * HEIGHT) as usize;
        let skip: usize = (layers * WIDTH) as usize;
        let mut cells: Vec<Option<TetrominoType>> = Vec::new();
        let mut i: usize = skip;
        while i < total
            invariant
                self.wf(),
                total == WIDTH * HEIGHT,
                skip <= i <= total,
                cells@.len() == i - skip,
                forall|k: int| 0 <= k < i - skip ==> cells@[k] == self.cells@[k + skip],
            decreases total - i,
        {
            cells.push(self.cells[i]);
            i = i + 1;
        }
        let mut j: usize = 0;
        while j < skip
            invariant
                total == WIDTH * HEIGHT,
                skip <= total,
                0 <= j <= skip,
                cells@.len() == total - skip + j,
                forall|k: int| 0 <= k < total - skip ==> cells@[k] == self.cells@[k + skip],
                forall|k: int| total - skip <= k < total - skip + j ==> cells@[k] is None,
            decreases skip - j,
        {
            cells.push(None);
            j = j + 1;
        }
        self.cells = cells;
        assert(self@ =~= lowered(old(self)@, layers as int)) by {
            assert forall|p: Point| in_matrix(p) implies slot(Point { x: p.x, y: p.y + layers })
                == slot(p) + skip by {}
        }
        layers as usize
    }

    /// The settled blocks, each once, with its position and kind.
    pub fn blocks(&self) -> (blocks: Vec<(MatrixPosition, TetrominoType)>)
        requires
            self.wf(),
        ensures
            forall|i: int|
                0 <= i < blocks@.len() ==> self@.contains_key((#[trigger] blocks@[i]).0@)
                    && self@[blocks@[i].0@] == blocks@[i].1,
            forall|p: Point|
                self@.contains_key(p) ==> exists|i: int|
                    0 <= i < blocks@.len() && (#[trigger] blocks@[i]).0@ == p,
            forall|i: int, j: int|
                0 <= i < j < blocks@.len() ==> (#[trigger] blocks@[i]).0 != (
                #[trigger] blocks@[j]).0,
    {
        let mut blocks: Vec<(MatrixPosition, TetrominoType)> = Vec::new();
        let mut y: i32 = 0;
        while y < HEIGHT
            invariant
                self.wf(),
                0 <= y <= HEIGHT,
                forall|i: int|
                    0 <= i < blocks@.len() ==> self@.contains_key((#[trigger] blocks@[i]).0@)
                        && self@[blocks@[i].0@] == blocks@[i].1 && blocks@[i].0.y < y,
                forall|p: Point|
                    self@.contains_key(p) && p.y < y ==> exists|i: int|
                        0 <= i < blocks@.len() && (#[trigger] blocks@[i]).0@ == p,
                forall|i: int, j: int|
                    0 <= i < j < blocks@.len() ==> (#[trigger] blocks@[i]).0 != (
                    #[trigger] blocks@[j]).0,
            decreases HEIGHT - y,
        {
            let mut x: i32 = 0;
            while x < WIDTH
                invariant
                    self.wf(),
                    0 <= y < HEIGHT,
                    0 <= x <= WIDTH,
                    forall|i: int|
                        0 <= i < blocks@.len() ==> self@.contains_key((#[trigger] blocks@[i]).0@)
                            && self@[blocks@[i].0@] == blocks@[i].1 && (blocks@[i].0.y < y || (
                        blocks@[i].0.y == y && blocks@[i].0.x < x)),
                    forall|p: Point|
                        self@.contains_key(p) && (p.y < y || (p.y == y && p.x < x))
                            ==> exists|i: int|
                            0 <= i < blocks@.len() && (#[trigger] blocks@[i]).0@ == p,
                    forall|i: int, j: int|
                        0 <= i < j < blocks@.len() ==> (#[trigger] blocks@[i]).0 != (
                        #[trigger] blocks@[j]).0,
                decreases WIDTH - x,
            {
                let position = MatrixPosition { x, y };
                let ghost before = blocks@;
                match self.get(position) {
                    Some(kind) => {
                        blocks.push((position, kind));
                        assert forall|p: Point|
                            self@.contains_key(p) && (p.y < y || (p.y == y && p.x < x + 1))
                            implies exists|i: int|
                            0 <= i < blocks@.len() && (#[trigger] blocks@[i]).0@ == p by {
                            if p == position@ {
                                assert(blocks@[before.len() as int].0@ == p);
                            } else {
                                let i = choose|i: int|
                                    0 <= i < before.len() && (#[trigger] before[i]).0@ == p;
                                assert(blocks@[i].0@ == p);
                            }
                        }
                    },
                    None => {},
                }
                x = x + 1;
            }
            y = y + 1;
        }
        blocks
    }
}

} // verus!
