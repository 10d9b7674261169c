//! The game: the heap, the tetromino in play and the soft-drop timer, and the
//! tick that takes them from one frame to the next.

use vstd::prelude::*;
use crate::catalog::{Point, TetrominoType};
use crate::collision::legal;
use crate::heap::{
    bounded, full_bottom_layers, layer_full, lemma_cleared_heap, lemma_lowered_by_none, lowered,
    Heap,
};
use crate::movement::{
    heap_after_move, lemma_kick_is_first_legal, lemma_proposed_wf, lemma_resolved_wf, locks,
    move_current_tetromino, move_current_tetromino_with, piece_after_move, proposed, resolved,
    Input, MoveOutcome,
};
use crate::random::random_tetromino_type;
use crate::tetromino::{
    lemma_spawned_wf, lemma_wf_in_layers, spawn_current_tetromino, spawned, CurrentTetromino,
    PieceView,
};
use crate::timer::{SoftDropTimer, TimerView, SOFT_DROP_PERIOD};

verus! {

/// The game as a value of the model.
pub struct GameView {
    pub heap: Map<Point, TetrominoType>,
    pub current: PieceView,
    pub soft_drop: TimerView,
}

/// What a tick did.
#[derive(Clone, Copy, Debug, PartialEq, Eq, Structural)]
pub struct TickReport {
    /// What became of the tetromino in play.
    pub outcome: MoveOutcome,
    /// How many full layers were taken out of the heap.
    pub cleared_layers: usize,
}

impl GameView {
    /// Validity: the settled blocks are inside the matrix, the tetromino in
    /// play and the timer are valid.
    pub open spec fn wf(self) -> bool {
        &&& bounded(self.heap)
        &&& self.current.wf()
        &&& self.soft_drop.wf()
    }

    /// The state in which a game is between two ticks as long as each new
    /// tetromino has found room and no wall kick has carried one beyond a
    /// wall: the tetromino in play is inside the matrix and clear of the
    /// heap, and the bottom layer is not full.
    pub open spec fn steady(self) -> bool {
        &&& self.wf()
        &&& self.current.in_matrix()
        &&& legal(self.current, self.heap)
        &&& !layer_full(self.heap, 0)
    }

    /// Whether the soft-drop timer fires in a tick after `delta` nanoseconds.
    pub open spec fn soft_drop_due(self, delta: nat) -> bool {
        self.soft_drop.fires(delta)
    }

    /// What becomes of the tetromino in play in a tick.
    pub open spec fn tick_outcome(self, input: Input, delta: nat) -> MoveOutcome {
        resolved(self.current, self.heap, input, self.soft_drop_due(delta)).outcome
    }

    /// The heap after the move of a tick, before full layers are taken out.
    pub open spec fn heap_after_move(self, input: Input, delta: nat) -> Map<Point, TetrominoType> {
        heap_after_move(self.current, self.heap, input, self.soft_drop_due(delta))
    }

    /// How many layers a tick takes out.
    pub open spec fn tick_cleared(self, input: Input, delta: nat) -> nat {
        full_bottom_layers(self.heap_after_move(input, delta))
    }

    /// The game after a tick: the timer takes `delta` nanoseconds, the
    /// tetromino moves or locks, with one of kind `next` entering play when it
    /// locks, then the full layers on the floor are taken out.
    pub open spec fn ticked(self, input: Input, delta: nat, next: TetrominoType) -> GameView {
        GameView {
            heap: lowered(
                self.heap_after_move(input, delta),
                self.tick_cleared(input, delta) as int,
            ),
            current: piece_after_move(
                self.current,
                self.heap,
                input,
                self.soft_drop_due(delta),
                next,
            ),
            soft_drop: self.soft_drop.advanced(delta),
        }
    }
}

/// The game at its start: an empty matrix, a tetromino of kind `first`
/// entering play, a timer of the usual period that has gathered no time.
pub open spec fn new_game(first: TetrominoType) -> GameView {
    GameView {
        heap: Map::empty(),
        current: spawned(first),
        soft_drop: TimerView { period: SOFT_DROP_PERIOD as nat, elapsed: 0 },
    }
}

/// A new game is steady.
pub proof fn lemma_new_game_steady(first: TetrominoType)
    ensures
        new_game(first).steady(),
{
    lemma_spawned_wf(first);
    assert(!new_game(first).heap.contains_key(Point { x: 0, y: 0 }));
}

/// A tick keeps a valid game valid: the settled blocks stay inside the
/// matrix, each at a position of its own, and the bottom layer is not full
/// when the tick is over.
pub proof fn lemma_tick_keeps_wf(state: GameView, input: Input, delta: nat, next: TetrominoType)
    requires
        state.wf(),
    ensures
        state.ticked(input, delta, next).wf(),
        !layer_full(state.ticked(input, delta, next).heap, 0),
{
    let soft_drop = state.soft_drop_due(delta);
    lemma_resolved_wf(state.current, state.heap, input, soft_drop);
    lemma_spawned_wf(next);
    lemma_cleared_heap(state.heap_after_move(input, delta));
    let period = state.soft_drop.period as int;
    vstd::arithmetic::div_mod::lemma_mod_bound((state.soft_drop.elapsed + delta) as int, period);
}

/// After a tick of a game whose tetromino was inside the matrix, every
/// settled block and every block of the tetromino in play is inside the
/// matrix, unless the tick took a wall kick that carried the tetromino beyond
/// a wall: the wall kicks are not held back by the walls.
pub proof fn lemma_tick_keeps_bounds(state: GameView, input: Input, delta: nat, next: TetrominoType)
    requires
        state.wf(),
        state.current.in_matrix(),
        state.tick_outcome(input, delta) is Kicked ==> state.ticked(
            input,
            delta,
            next,
        ).current.in_columns(),
    ensures
        bounded(state.ticked(input, delta, next).heap),
        state.ticked(input, delta, next).current.in_matrix(),
{
    let soft_drop = state.soft_drop_due(delta);
    let after = state.ticked(input, delta, next);
    lemma_tick_keeps_wf(state, input, delta, next);
    lemma_wf_in_layers(after.current);
    lemma_spawned_wf(next);
    if !input.hard_drop {
        lemma_proposed_wf(state.current, state.heap, input, soft_drop);
    }
}

/// After a tick of a steady game, no block of the tetromino in play is where
/// a block has settled, unless the tetromino locked and the heap, once its
/// full layers are taken out, holds a block where the new tetromino enters
/// play. That no two settled blocks share a position holds of every heap: it
/// is a map from positions.
pub proof fn lemma_tick_keeps_clear(state: GameView, input: Input, delta: nat, next: TetrominoType)
    requires
        state.steady(),
        locks(state.tick_outcome(input, delta)) ==> legal(
            spawned(next),
            state.ticked(input, delta, next).heap,
        ),
    ensures
        legal(
            state.ticked(input, delta, next).current,
            state.ticked(input, delta, next).heap,
        ),
{
    let soft_drop = state.soft_drop_due(delta);
    if !locks(state.tick_outcome(input, delta)) {
        assert(full_bottom_layers(state.heap) == 0);
        lemma_lowered_by_none(state.heap);
        if !input.hard_drop {
            let candidate = proposed(state.current, input, soft_drop);
            if !legal(candidate, state.heap) {
                lemma_kick_is_first_legal(state.current, state.heap, input, soft_drop);
            }
        }
    }
}

/// A steady game stays steady over a tick in which no wall kick carries the
/// tetromino beyond a wall and, if the tetromino locks, the new one finds
/// room.
pub proof fn lemma_tick_keeps_steady(state: GameView, input: Input, delta: nat, next: TetrominoType)
    requires
        state.steady(),
        state.tick_outcome(input, delta) is Kicked ==> state.ticked(
            input,
            delta,
            next,
        ).current.in_columns(),
        locks(state.tick_outcome(input, delta)) ==> legal(
            spawned(next),
            state.ticked(input, delta, next).heap,
        ),
    ensures
        state.ticked(input, delta, next).steady(),
{
    lemma_tick_keeps_wf(state, input, delta, next);
    lemma_tick_keeps_bounds(state, input, delta, next);
    lemma_tick_keeps_clear(state, input, delta, next);
}

/// The game.
pub struct Game {
    heap: Heap,
    current: CurrentTetromino,
    soft_drop: SoftDropTimer,
}

impl View for Game {
    type V = GameView;

    closed spec fn view(&self) -> GameView {
        GameView { heap: self.heap@, current: self.current@, soft_drop: self.soft_drop@ }
    }
}

impl Game {
    /// Validity of the representation.
    pub closed spec fn wf(&self) -> bool {
        &&& self.heap.wf()
        &&& self.current.wf()
        &&& self.soft_drop.wf()
    }

    /// A valid game is a valid value of the model.
    pub proof fn lemma_view_wf(&self)
        requires
            self.wf(),
        ensures
            self@.wf(),
    {
        self.heap.lemma_blocks_in_matrix();
    }

    /// A new game whose first tetromino is of kind `first`.
    pub fn with_first(first: TetrominoType) -> (game: Game)
        ensures
            game.wf(),
            game@ == new_game(first),
    {
        Game {
            heap: Heap::new(),
            current: spawn_current_tetromino(first),
            soft_drop: SoftDropTimer::soft_drop(),
        }
    }

    /// A new game whose first tetromino is drawn at random.
    pub fn new() -> (game: Game)
        ensures
            game.wf(),
            exists|first: TetrominoType| game@ == #[trigger] new_game(first),
    {
        let first = random_tetromino_type();
        let game = Game::with_first(first);
        assert(game@ == new_game(first));
        game
    }

    /// A game made of the given parts.
    pub fn from_parts(heap: Heap, current: CurrentTetromino, soft_drop: SoftDropTimer) -> (game:
        Game)
        requires
            heap.wf(),
            current.wf(),
            soft_drop.wf(),
        ensures
            game.wf(),
            game@ == (GameView { heap: heap@, current: current@, soft_drop: soft_drop@ }),
    {
        Game { heap, current, soft_drop }
    }

    /// The heap.
    pub fn heap(&self) -> (heap: &Heap)
        requires
            self.wf(),
        ensures
            heap.wf(),
            heap@ == self@.heap,
    {
        &self.heap
    }

    /// The tetromino in play.
    pub fn current(&self) -> (current: &CurrentTetromino)
        requires
            self.wf(),
        ensures
            current.wf(),
            current@ == self@.current,
    {
        &self.current
    }

    /// The soft-drop timer.
    pub fn soft_drop_timer(&self) -> (timer: &SoftDropTimer)
        requires
            self.wf(),
        ensures
            timer.wf(),
            timer@ == self@.soft_drop,
    {
        &self.soft_drop
    }

    /// One tick, `delta` nanoseconds after the last, in which a tetromino of
    /// kind `next` enters play if the one in play locks.
    pub fn tick_with(&mut self, input: Input, delta: u64, next: TetrominoType) -> (report:
        TickReport)
        requires
            old(self).wf(),
        ensures
            final(self).wf(),
            final(self)@ == old(self)@.ticked(input, delta as nat, next),
            report.outcome == old(self)@.tick_outcome(input, delta as nat),
            report.cleared_layers == old(self)@.tick_cleared(input, delta as nat),
    {
        let soft_drop = self.soft_drop.tick(delta);
        let outcome = move_current_tetromino_with(
            &mut self.current,
            &mut self.heap,
            input,
            soft_drop,
            next,
        );
        let cleared_layers = self.heap.clear_full_layers();
        TickReport { outcome, cleared_layers }
    }

    /// One tick, `delta` nanoseconds after the last. If the tetromino in play
    /// locks, the kind of the one that enters play is drawn at random.
    pub fn tick(&mut self, input: Input, delta: u64) -> (report: TickReport)
        requires
            old(self).wf(),
        ensures
            final(self).wf(),
            exists|next: TetrominoType|
                final(self)@ == #[trigger] old(self)@.ticked(input, delta as nat, next),
            report.outcome == old(self)@.tick_outcome(input, delta as nat),
            report.cleared_layers == old(self)@.tick_cleared(input, delta as nat),
    {
        let soft_drop = self.soft_drop.tick(delta);
        let outcome = move_current_tetromino(&mut self.current, &mut self.heap, input, soft_drop);
        let cleared_layers = self.heap.clear_full_layers();
        proof {
            let next = choose|next: TetrominoType|
                self.current@ == #[trigger] piece_after_move(
                    old(self).current@,
                    old(self).heap@,
                    input,
                    soft_drop,
                    next,
                );
            assert(self@ == old(self)@.ticked(input, delta as nat, next));
        }
        TickReport { outcome, cleared_layers }
    }
}

} // verus!
