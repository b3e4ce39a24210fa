//! What holds of the game whatever is played: statements that relate the
//! rules of the other modules to each other.

use vstd::prelude::*;
use crate::attack::{attack, Tally};
use crate::board::{
    collides, empty_grid, empty_row, injected, is_gaps, is_grid, no_full_rows, occupied, pixel_at,
    raised, row_full, swept, with_piece, without_row,
};
use crate::engine::{
    dropped, full_bag, is_draw, is_refill, lemma_refill, locked, spawned, spawns, step, topped_up,
    EngineView,
};
use crate::events::{TetrisIn, TetrisOut, UserInput};
use crate::piece::{
    candidate_count, first_fit, kick_table, lemma_far_piece_collides, lemma_oriented_mask_square,
    lemma_spawn_mask, lemma_turned_mask, rotated, turned_mask, Orientation, PieceView, Rotation,
};
use crate::tetrimino::{is_square, BoardPixel, PixelColor, Tetrimino, BOARD_HEIGHT, BOARD_WIDTH};

verus! {

/// After row `row` is cleared, every row from `row` on holds what the row
/// above it held, the rows below `row` are as they were, and the top row is
/// empty.
pub proof fn law_clear_row_shifts(grid: Seq<Seq<BoardPixel>>, row: int)
    requires
        is_grid(grid),
        0 <= row < BOARD_HEIGHT,
    ensures
        is_grid(without_row(grid, row)),
        forall|y: int| row <= y < BOARD_HEIGHT - 1 ==> #[trigger] without_row(grid, row)[y] == grid[y + 1],
        forall|y: int| 0 <= y < row ==> #[trigger] without_row(grid, row)[y] == grid[y],
        without_row(grid, row)[BOARD_HEIGHT - 1] == empty_row(),
{
}

/// A cleared row reads as empty afterwards, provided that the row above it
/// was empty or there is no row above it.
pub proof fn law_cleared_row_is_empty(grid: Seq<Seq<BoardPixel>>, row: int, x: int)
    requires
        is_grid(grid),
        0 <= row < BOARD_HEIGHT,
        0 <= x < BOARD_WIDTH,
        row == BOARD_HEIGHT - 1 || grid[row + 1] == empty_row(),
    ensures
        pixel_at(without_row(grid, row), x, row) == BoardPixel::Empty,
{
}

/// Every injected garbage row has exactly one empty cell, at its gap; its
/// other cells are gray.
pub proof fn law_injected_rows_have_one_gap(
    grid: Seq<Seq<BoardPixel>>,
    rows: int,
    gaps: Seq<usize>,
    x: int,
    y: int,
)
    requires
        is_grid(grid),
        rows > 0,
        is_gaps(gaps, rows),
        0 <= x < BOARD_WIDTH,
        0 <= y < injected(rows),
    ensures
        0 <= gaps[y] < BOARD_WIDTH,
        pixel_at(raised(grid, rows, gaps), x, y) == if x == gaps[y] {
            BoardPixel::Empty
        } else {
            BoardPixel::Filled(PixelColor::Gray)
        },
{
}

/// What the board held before an injection lies `rows` higher after it.
pub proof fn law_injection_lifts(
    grid: Seq<Seq<BoardPixel>>,
    rows: int,
    gaps: Seq<usize>,
    x: int,
    y: int,
)
    requires
        is_grid(grid),
        rows > 0,
        is_gaps(gaps, rows),
        0 <= x < BOARD_WIDTH,
        rows <= y < BOARD_HEIGHT,
    ensures
        pixel_at(raised(grid, rows, gaps), x, y) == pixel_at(grid, x, y - rows),
{
}

/// A rotation takes the first candidate of the kick table that is clear of
/// the board, and fails only when every candidate collides.
pub proof fn law_rotation_takes_first_fit(
    piece: PieceView,
    rotation: Rotation,
    grid: Seq<Seq<BoardPixel>>,
)
    ensures
        match rotated(piece, rotation, grid) {
            Some(turned) => exists|index: int|
                {
                    &&& 0 <= index < candidate_count(piece.tetrimino)
                    &&& turned == #[trigger] piece.candidate(rotation, index)
                    &&& !collides(grid, turned)
                    &&& forall|earlier: int|
                        0 <= earlier < index ==> collides(
                            grid,
                            #[trigger] piece.candidate(rotation, earlier),
                        )
                },
            None => forall|index: int|
                0 <= index < candidate_count(piece.tetrimino) ==> collides(
                    grid,
                    #[trigger] piece.candidate(rotation, index),
                ),
        },
{
    match first_fit(piece, rotation, grid) {
        Some(index) => {
            assert(rotated(piece, rotation, grid) == Some(piece.candidate(rotation, index)));
        },
        None => {},
    }
}

/// The kick table for counter-clockwise turns mirrors the one for clockwise
/// turns: the turn back from where a clockwise turn leads tries the opposite
/// corrections, in the same order.
pub proof fn law_kick_table_symmetric(tetrimino: Tetrimino, orientation: Orientation, index: int)
    requires
        0 <= index < 5,
    ensures
        ({
            let there = kick_table(tetrimino, orientation, Rotation::Clockwise)[index];
            let back = kick_table(
                tetrimino,
                orientation.spec_turned(Rotation::Clockwise),
                Rotation::CounterClockwise,
            )[index];
            back.0 == -there.0 && back.1 == -there.1
        }),
{
}

/// A counter-clockwise turn of a square mask undoes a clockwise turn, and
/// the other way round.
pub proof fn law_turns_undo(mask: Seq<Seq<bool>>)
    requires
        is_square(mask),
    ensures
        turned_mask(turned_mask(mask, Rotation::Clockwise), Rotation::CounterClockwise) == mask,
        turned_mask(turned_mask(mask, Rotation::CounterClockwise), Rotation::Clockwise) == mask,
{
    assert(turned_mask(turned_mask(mask, Rotation::Clockwise), Rotation::CounterClockwise)
        =~~= mask);
    assert(turned_mask(turned_mask(mask, Rotation::CounterClockwise), Rotation::Clockwise)
        =~~= mask);
}

/// A hard drop moves the piece straight down, through places that are all
/// clear of the board, to a place from which the next step down collides.
pub proof fn law_hard_drop_lands(grid: Seq<Seq<BoardPixel>>, piece: PieceView)
    requires
        piece.wf(),
    ensures
        ({
            let landed = dropped(grid, piece);
            &&& landed.offset.1 <= piece.offset.1
            &&& landed == piece.shifted(0, landed.offset.1 - piece.offset.1)
            &&& collides(grid, landed.shifted(0, -1))
            &&& forall|y: int|
                landed.offset.1 <= y < piece.offset.1 ==> !collides(
                    grid,
                    #[trigger] piece.shifted(0, y - piece.offset.1),
                )
        }),
    decreases piece.offset.1 + 5,
{
    let lower = piece.shifted(0, -1);
    if piece.offset.1 < -4 {
        lemma_far_piece_collides(grid, lower);
        assert(piece.shifted(0, 0) == piece);
    } else if collides(grid, lower) {
        assert(piece.shifted(0, 0) == piece);
    } else {
        law_hard_drop_lands(grid, lower);
        let landed = dropped(grid, piece);
        assert(landed == piece.shifted(0, landed.offset.1 - piece.offset.1));
        assert forall|y: int| landed.offset.1 <= y < piece.offset.1 implies !collides(
            grid,
            #[trigger] piece.shifted(0, y - piece.offset.1),
        ) by {
            if y < piece.offset.1 - 1 {
                assert(lower.shifted(0, y - lower.offset.1) == piece.shifted(
                    0,
                    y - piece.offset.1,
                ));
            } else {
                assert(piece.shifted(0, y - piece.offset.1) == lower);
            }
        }
    }
}

/// A scan clears no more rows than it looks at, and leaves a grid.
pub proof fn law_scan_bound(grid: Seq<Seq<BoardPixel>>, bottom: int, height: nat)
    requires
        is_grid(grid),
    ensures
        swept(grid, bottom, height).1 <= height,
        is_grid(swept(grid, bottom, height).0),
    decreases height,
{
    if height > 0 {
        let row = bottom + height - 1;
        if row >= 0 && row_full(grid, row) {
            law_scan_bound(without_row(grid, row), bottom, (height - 1) as nat);
        } else {
            law_scan_bound(grid, bottom, (height - 1) as nat);
        }
    }
}

/// A hard drop is reported as the accepted command, then the lock, then the
/// cleared rows if there are any, in this order; it leaves the engine without
/// a piece and free to hold again.
pub proof fn law_hard_drop_reports(
    state: EngineView,
    piece: PieceView,
    refill: Seq<Tetrimino>,
    gaps: Seq<usize>,
)
    requires
        state.running,
        state.piece == Some(piece),
    ensures
        ({
            let command = TetrisIn::User(UserInput::DropHard);
            let landed = dropped(state.board, piece);
            let scan = swept(with_piece(state.board, landed), landed.offset.1, landed.cells.len());
            let outcome = step(state, command, refill, gaps);
            &&& outcome.events == if scan.1 > 0 {
                seq![
                    TetrisOut::ValidIn(command),
                    TetrisOut::LockedPiece,
                    TetrisOut::RemovedRows(scan.1 as usize),
                ]
            } else {
                seq![TetrisOut::ValidIn(command), TetrisOut::LockedPiece]
            }
            &&& outcome.state.board == scan.0
            &&& outcome.state.piece is None
            &&& !outcome.state.held_this_drop
        }),
{
    let command = TetrisIn::User(UserInput::DropHard);
    let landed = dropped(state.board, piece);
    let lock = locked(state, landed);
    let outcome = step(state, command, refill, gaps);
    assert(outcome.events =~= seq![TetrisOut::ValidIn(command)] + lock.events);
}

/// An engine that does not run ignores every command but a start: its state
/// stays what it was and it reports nothing.
pub proof fn law_stopped_engine_ignores(
    state: EngineView,
    event: TetrisIn,
    refill: Seq<Tetrimino>,
    gaps: Seq<usize>,
)
    requires
        !state.running,
        !(event is Start),
    ensures
        step(state, event, refill, gaps).state == state,
        step(state, event, refill, gaps).events == Seq::<TetrisOut>::empty(),
{
}

/// A loss is reported exactly when a running engine stops, and only a tick
/// can stop it.
pub proof fn law_loss_stops_engine(
    state: EngineView,
    event: TetrisIn,
    refill: Seq<Tetrimino>,
    gaps: Seq<usize>,
)
    requires
        state.running,
    ensures
        step(state, event, refill, gaps).events.contains(TetrisOut::Lose) == !step(
            state,
            event,
            refill,
            gaps,
        ).state.running,
        !step(state, event, refill, gaps).state.running ==> event is Tick,
{
    let outcome = step(state, event, refill, gaps);
    if !outcome.state.running {
        assert(outcome.events[1] == TetrisOut::Lose);
    } else {
        assert forall|i: int| 0 <= i < outcome.events.len() implies outcome.events[i]
            != TetrisOut::Lose by {
            law_event_shapes(state, event, refill, gaps, i);
        }
    }
}

/// The events of one command: first that it was accepted; a loss only where
/// the engine stops.
pub proof fn law_event_shapes(
    state: EngineView,
    event: TetrisIn,
    refill: Seq<Tetrimino>,
    gaps: Seq<usize>,
    index: int,
)
    requires
        0 <= index < step(state, event, refill, gaps).events.len(),
    ensures
        step(state, event, refill, gaps).events[0] == TetrisOut::ValidIn(event),
        step(state, event, refill, gaps).events[index] == TetrisOut::Lose ==> state.running
            && !step(state, event, refill, gaps).state.running,
{
}

/// Garbage is injected at once: the rows are on the board when the command
/// returns, the falling piece is where it was, and nothing locks. Whether
/// the piece now collides shows at its next move.
pub proof fn law_add_rows_is_immediate(
    state: EngineView,
    count: usize,
    refill: Seq<Tetrimino>,
    gaps: Seq<usize>,
)
    requires
        state.running,
    ensures
        step(state, TetrisIn::AddRows(count), refill, gaps).state == (EngineView {
            board: raised(state.board, count as int, gaps),
            ..state
        }),
        step(state, TetrisIn::AddRows(count), refill, gaps).events == seq![
            TetrisOut::ValidIn(TetrisIn::AddRows(count)),
        ],
{
    assert(step(state, TetrisIn::AddRows(count), refill, gaps).events =~= seq![
        TetrisOut::ValidIn(TetrisIn::AddRows(count)),
    ]);
}

/// A clear pays off what the player owes before anything is sent: what it is
/// worth is split into what it cancels and what it sends, and it cancels as
/// much as is owed.
pub proof fn law_clear_offsets_debt(tally: Tally, rows: usize)
    requires
        !tally.lost,
    ensures
        ({
            let next = tally.after(TetrisOut::RemovedRows(rows));
            let lines = attack(rows as nat);
            let cancelled = if lines < tally.pending {
                lines
            } else {
                tally.pending
            };
            &&& next.pending == tally.pending - cancelled
            &&& next.sent == tally.sent + lines - cancelled
            &&& next.commands == tally.commands
        }),
{
}

/// Garbage reaches the own board only at a lock: a lock orders all that is
/// owed at once, and no other event orders anything.
pub proof fn law_garbage_waits_for_lock(tally: Tally, event: TetrisOut)
    requires
        !tally.lost,
        tally.pending <= usize::MAX,
    ensures
        ({
            let next = tally.after(event);
            if event is LockedPiece && tally.pending > 0 {
                &&& next.commands == tally.commands.push(
                    TetrisIn::AddRows(tally.pending as usize),
                )
                &&& next.pending == 0
            } else {
                next.commands == tally.commands
            }
        }),
{
}

/// While the bag lasts, the spawns take it from its end.
pub proof fn law_spawns_drain_bag(bag: Seq<Tetrimino>, refills: Seq<Seq<Tetrimino>>, more: nat)
    requires
        bag.len() > 0,
    ensures
        spawns(bag, refills, bag.len() + more) == bag.reverse() + spawns(
            Seq::empty(),
            refills,
            more,
        ),
    decreases bag.len(),
{
    let rest = bag.drop_last();
    assert(spawns(bag, refills, bag.len() + more) == seq![bag.last()] + spawns(
        rest,
        refills,
        (bag.len() + more - 1) as nat,
    ));
    if rest.len() == 0 {
        assert(rest =~= Seq::empty());
        assert(bag.reverse() =~= seq![bag.last()]);
    } else {
        law_spawns_drain_bag(rest, refills, more);
        assert(bag.reverse() =~= seq![bag.last()] + rest.reverse());
    }
    assert(seq![bag.last()] + (rest.reverse() + spawns(Seq::empty(), refills, more)) =~= (seq![
        bag.last(),
    ] + rest.reverse()) + spawns(Seq::empty(), refills, more));
}

/// From an empty bag, the spawns take the next refill from its end, and
/// then go on from an empty bag with the refills that are left.
pub proof fn law_spawns_take_refill(refills: Seq<Seq<Tetrimino>>, more: nat)
    requires
        refills.len() > 0,
        refills[0].len() > 0,
    ensures
        spawns(Seq::empty(), refills, refills[0].len() + more) == refills[0].reverse() + spawns(
            Seq::empty(),
            refills.drop_first(),
            more,
        ),
{
    let bag = refills[0];
    let rest = bag.drop_last();
    let others = refills.drop_first();
    assert(spawns(Seq::empty(), refills, bag.len() + more) == seq![bag.last()] + spawns(
        rest,
        others,
        (bag.len() + more - 1) as nat,
    ));
    if rest.len() == 0 {
        assert(rest =~= Seq::empty());
        assert(bag.reverse() =~= seq![bag.last()]);
    } else {
        law_spawns_drain_bag(rest, others, more);
        assert(bag.reverse() =~= seq![bag.last()] + rest.reverse());
    }
    assert(seq![bag.last()] + (rest.reverse() + spawns(Seq::empty(), others, more)) =~= (seq![
        bag.last(),
    ] + rest.reverse()) + spawns(Seq::empty(), others, more));
}

/// A refill holds every shape exactly once.
pub proof fn law_refill_counts(refill: Seq<Tetrimino>, tetrimino: Tetrimino)
    requires
        is_refill(refill),
    ensures
        refill.to_multiset().count(tetrimino) == 1,
{
    let index: int = match tetrimino {
        Tetrimino::I => 0,
        Tetrimino::J => 1,
        Tetrimino::L => 2,
        Tetrimino::O => 3,
        Tetrimino::S => 4,
        Tetrimino::T => 5,
        Tetrimino::Z => 6,
    };
    assert(full_bag()[index] == tetrimino);
    assert(full_bag().contains(tetrimino));
    assert(full_bag().no_duplicates());
    vstd::seq_lib::to_multiset_contains(full_bag(), tetrimino);
    full_bag().lemma_multiset_has_no_duplicates();
}

/// The bag is fair: the first fourteen spawns from an empty bag bring every
/// shape exactly twice, however the two refills were shuffled.
pub proof fn law_bag_fairness(refills: Seq<Seq<Tetrimino>>, tetrimino: Tetrimino)
    requires
        refills.len() >= 2,
        is_refill(refills[0]),
        is_refill(refills[1]),
    ensures
        spawns(Seq::empty(), refills, 14).len() == 14,
        spawns(Seq::empty(), refills, 14).to_multiset().count(tetrimino) == 2,
{
    let first = refills[0];
    let second = refills[1];
    let others = refills.drop_first();
    lemma_refill(first);
    lemma_refill(second);
    law_spawns_take_refill(refills, 7);
    assert(others[0] == second);
    law_spawns_take_refill(others, 0);
    assert(spawns(Seq::empty(), others.drop_first(), 0) =~= Seq::empty());
    let run = spawns(Seq::empty(), refills, 14);
    assert(run =~= first.reverse() + second.reverse());
    vstd::seq_lib::lemma_multiset_commutative(first.reverse(), second.reverse());
    first.lemma_reverse_to_multiset();
    second.lemma_reverse_to_multiset();
    law_refill_counts(first, tetrimino);
    law_refill_counts(second, tetrimino);
}

/// While the bag is long enough, the spawns are its end, last shape first.
pub proof fn law_spawns_from_bag(bag: Seq<Tetrimino>, refills: Seq<Seq<Tetrimino>>, count: nat)
    requires
        count <= bag.len(),
    ensures
        spawns(bag, refills, count) == bag.reverse().take(count as int),
    decreases count,
{
    if count == 0 {
        assert(spawns(bag, refills, count) =~= bag.reverse().take(0));
    } else {
        law_spawns_from_bag(bag.drop_last(), refills, (count - 1) as nat);
        assert(bag.reverse().take(count as int) =~= seq![bag.last()]
            + bag.drop_last().reverse().take(count - 1));
    }
}

/// A run without a shape twice holds no shape more than once, counted.
pub proof fn law_count_without_duplicates(run: Seq<Tetrimino>, tetrimino: Tetrimino)
    requires
        run.no_duplicates(),
    ensures
        run.to_multiset().count(tetrimino) <= 1,
{
    run.lemma_multiset_has_no_duplicates();
    vstd::seq_lib::to_multiset_contains(run, tetrimino);
}

/// No shape comes more than twice in seven spawns in a row, wherever in the
/// bag they begin.
pub proof fn law_seven_spawns(
    bag: Seq<Tetrimino>,
    refills: Seq<Seq<Tetrimino>>,
    tetrimino: Tetrimino,
)
    requires
        bag.no_duplicates(),
        refills.len() >= 1,
        is_refill(refills[0]),
    ensures
        spawns(bag, refills, 7).to_multiset().count(tetrimino) <= 2,
{
    let refill = refills[0];
    lemma_refill(refill);
    if bag.len() >= 7 {
        law_spawns_from_bag(bag, refills, 7);
        let run = bag.reverse().take(7);
        assert(run.no_duplicates());
        law_count_without_duplicates(run, tetrimino);
    } else {
        let left = (7 - bag.len()) as nat;
        let others = refills.drop_first();
        // the shapes that the refill gives
        let fresh = refill.reverse().take(left as int);
        assert(spawns(Seq::empty(), refills, left) == fresh) by {
            if left > 0 {
                law_spawns_from_bag(refill.drop_last(), others, (left - 1) as nat);
                assert(fresh =~= seq![refill.last()] + refill.drop_last().reverse().take(
                    left - 1,
                ));
            } else {
                assert(fresh =~= Seq::empty());
            }
        }
        assert(fresh.no_duplicates());
        law_count_without_duplicates(fresh, tetrimino);
        if bag.len() == 0 {
            assert(bag =~= Seq::empty());
        } else {
            law_spawns_drain_bag(bag, refills, left);
            assert(bag.reverse().no_duplicates());
            law_count_without_duplicates(bag.reverse(), tetrimino);
            vstd::seq_lib::lemma_multiset_commutative(bag.reverse(), fresh);
        }
    }
}

/// A tick of a running engine without a piece takes the next shape out of
/// the bag and spawns it; where the spawn collides, the engine stops and
/// reports the loss after the tick.
pub proof fn law_tick_spawns(state: EngineView, refill: Seq<Tetrimino>, gaps: Seq<usize>)
    requires
        state.running,
        state.piece is None,
    ensures
        ({
            let shape = spawns(state.piece_bag, seq![refill], 1)[0];
            let outcome = step(state, TetrisIn::Tick, refill, gaps);
            &&& outcome.state.piece_bag == topped_up(state.piece_bag, refill).drop_last()
            &&& outcome.state.board == state.board
            &&& if collides(state.board, spawned(shape)) {
                &&& !outcome.state.running
                &&& outcome.state.piece is None
                &&& outcome.events == seq![TetrisOut::ValidIn(TetrisIn::Tick), TetrisOut::Lose]
            } else {
                &&& outcome.state.running
                &&& outcome.state.piece == Some(spawned(shape))
                &&& outcome.events == seq![TetrisOut::ValidIn(TetrisIn::Tick)]
            }
        }),
{
    assert(seq![refill].first() == refill);
    let outcome = step(state, TetrisIn::Tick, refill, gaps);
    if !collides(state.board, spawned(topped_up(state.piece_bag, refill).last())) {
        assert(outcome.events =~= seq![TetrisOut::ValidIn(TetrisIn::Tick)]);
    }
}

/// A lock clears at most four rows, and cleared rows are reported only
/// when there are any.
pub proof fn law_lock_clears_up_to_four(state: EngineView, piece: PieceView)
    requires
        is_grid(state.board),
        piece.wf(),
    ensures
        ({
            let scan = swept(with_piece(state.board, piece), piece.offset.1, piece.cells.len());
            &&& scan.1 <= 4
            &&& locked(state, piece).events.len() == if scan.1 > 0 {
                2int
            } else {
                1int
            }
            &&& forall|rows: usize|
                locked(state, piece).events.contains(TetrisOut::RemovedRows(rows)) ==> 1 <= rows
                    <= 4
        }),
{
    lemma_oriented_mask_square(piece.tetrimino, piece.orientation);
    law_scan_bound(with_piece(state.board, piece), piece.offset.1, piece.cells.len());
}

/// Whatever the command and the draws, a well-formed state is followed by a
/// well-formed state.
pub proof fn law_step_keeps_wf(
    state: EngineView,
    event: TetrisIn,
    refill: Seq<Tetrimino>,
    gaps: Seq<usize>,
)
    requires
        state.wf(),
        is_draw(state, event, refill, gaps),
    ensures
        step(state, event, refill, gaps).state.wf(),
{
    lemma_refill(refill);
    let next = step(state, event, refill, gaps).state;
    match state.piece {
        Some(piece) => {
            let landed = dropped(state.board, piece);
            law_hard_drop_lands(state.board, piece);
            law_scan_bound(with_piece(state.board, piece), piece.offset.1, piece.cells.len());
            law_scan_bound(with_piece(state.board, landed), landed.offset.1, landed.cells.len());
            lemma_turned_mask(piece.tetrimino, piece.orientation, Rotation::Clockwise);
        },
        None => {},
    }
    match state.held_piece {
        Some(held) => {
            lemma_spawn_mask(held);
        },
        None => {},
    }
    lemma_spawn_mask(topped_up(state.piece_bag, refill).last());
}

/// A scan leaves no full row behind, if the only full rows were among those
/// that it looks at.
pub proof fn law_scan_clears_full_rows(grid: Seq<Seq<BoardPixel>>, bottom: int, height: nat)
    requires
        is_grid(grid),
        forall|y: int|
            0 <= y < BOARD_HEIGHT && !(bottom <= y < bottom + height) ==> !#[trigger] row_full(
                grid,
                y,
            ),
    ensures
        no_full_rows(swept(grid, bottom, height).0),
    decreases height,
{
    if height > 0 {
        let row = bottom + height - 1;
        if row >= 0 && row_full(grid, row) {
            let cleared = without_row(grid, row);
            assert forall|y: int|
                0 <= y < BOARD_HEIGHT && !(bottom <= y < bottom + height - 1) implies !#[trigger] row_full(
                cleared,
                y,
            ) by {
                if y == BOARD_HEIGHT - 1 {
                    assert(!occupied(cleared, 0, y));
                } else if y >= row {
                    assert(!row_full(grid, y + 1));
                    let x = choose|x: int| 0 <= x < BOARD_WIDTH && !#[trigger] occupied(grid, x, y + 1);
                    assert(!occupied(cleared, x, y));
                } else {
                    assert(!row_full(grid, y));
                    let x = choose|x: int| 0 <= x < BOARD_WIDTH && !#[trigger] occupied(grid, x, y);
                    assert(!occupied(cleared, x, y));
                }
            }
            law_scan_clears_full_rows(cleared, bottom, (height - 1) as nat);
        } else {
            law_scan_clears_full_rows(grid, bottom, (height - 1) as nat);
        }
    }
}

/// A board without a full row has none after any command: every row that a
/// lock fills is cleared by the scan of the same lock, and a garbage row has
/// its gap.
pub proof fn law_no_full_row_stays(
    state: EngineView,
    event: TetrisIn,
    refill: Seq<Tetrimino>,
    gaps: Seq<usize>,
)
    requires
        state.wf(),
        is_draw(state, event, refill, gaps),
        no_full_rows(state.board),
    ensures
        no_full_rows(step(state, event, refill, gaps).state.board),
{
    let next = step(state, event, refill, gaps).state;
    if next.board != state.board {
        match event {
            TetrisIn::Start(_) => {
                assert forall|y: int| 0 <= y < BOARD_HEIGHT implies !#[trigger] row_full(
                    empty_grid(),
                    y,
                ) by {
                    assert(!occupied(empty_grid(), 0, y));
                }
            },
            TetrisIn::AddRows(count) => {
                let lifted = raised(state.board, count as int, gaps);
                assert forall|y: int| 0 <= y < BOARD_HEIGHT implies !#[trigger] row_full(
                    lifted,
                    y,
                ) by {
                    if y < count {
                        assert(!occupied(lifted, gaps[y] as int, y));
                    } else {
                        assert(!row_full(state.board, y - count));
                        let x = choose|x: int|
                            0 <= x < BOARD_WIDTH && !#[trigger] occupied(
                                state.board,
                                x,
                                y - count,
                            );
                        assert(!occupied(lifted, x, y));
                    }
                }
            },
            _ => {
                let piece = state.piece->0;
                let landed = if event == TetrisIn::User(UserInput::DropHard) {
                    dropped(state.board, piece)
                } else {
                    piece
                };
                law_hard_drop_lands(state.board, piece);
                lemma_oriented_mask_square(landed.tetrimino, landed.orientation);
                let placed = with_piece(state.board, landed);
                assert forall|y: int|
                    0 <= y < BOARD_HEIGHT && !(landed.offset.1 <= y < landed.offset.1
                        + landed.cells.len()) implies !#[trigger] row_full(placed, y) by {
                    assert(!row_full(state.board, y));
                    let x = choose|x: int|
                        0 <= x < BOARD_WIDTH && !#[trigger] occupied(state.board, x, y);
                    assert(!landed.covers(x, y));
                    assert(!occupied(placed, x, y));
                }
                law_scan_clears_full_rows(placed, landed.offset.1, landed.cells.len());
            },
        }
    }
}

} // verus!
