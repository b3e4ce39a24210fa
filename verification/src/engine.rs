//! The engine of one player: a board, the falling piece, the held shape and
//! the bag of coming shapes, driven by commands and answering with events.

use vstd::prelude::*;
use rand::rngs::StdRng;
use crate::board::{collides, empty_grid, is_gaps, is_grid, raised, swept, with_piece, Board};
use crate::events::{TetrisIn, TetrisOut, UserInput};
use crate::piece::{lemma_far_piece_collides, rotated, Piece, PieceView, Rotation};
use crate::rng::{seeded, shuffle};
use crate::tetrimino::{BoardPixel, Tetrimino};

verus! {

/// What one command did: whether anything changed, and the events to report,
/// in order.
pub struct UpdatedState {
    pub board_changed: bool,
    pub events: Vec<TetrisOut>,
}

impl UpdatedState {
    /// The answer to an accepted command.
    pub fn input(board_changed: bool, event: TetrisIn) -> (update: UpdatedState)
        ensures
            update.board_changed == board_changed,
            update.events@ == seq![TetrisOut::ValidIn(event)],
    {
        let mut events: Vec<TetrisOut> = Vec::new();
        events.push(TetrisOut::ValidIn(event));
        assert(events@ =~= seq![TetrisOut::ValidIn(event)]);
        UpdatedState { board_changed, events }
    }

    /// The answer to a command that did nothing.
    pub fn empty() -> (update: UpdatedState)
        ensures
            !update.board_changed,
            update.events@ == Seq::<TetrisOut>::empty(),
    {
        UpdatedState { board_changed: false, events: Vec::new() }
    }
}

/// The state of an engine as plain values. The bag is drawn from its end.
pub struct EngineView {
    pub running: bool,
    pub board: Seq<Seq<BoardPixel>>,
    pub piece: Option<PieceView>,
    pub held_piece: Option<Tetrimino>,
    pub held_this_drop: bool,
    pub piece_bag: Seq<Tetrimino>,
}

/// A state and the events reported on the way to it.
pub struct Outcome {
    pub state: EngineView,
    pub events: Seq<TetrisOut>,
}

/// Where a shape spawns.
pub open spec fn spawn_offset(tetrimino: Tetrimino) -> (int, int) {
    match tetrimino {
        Tetrimino::I => (3, 18),
        Tetrimino::O => (4, 20),
        _ => (3, 19),
    }
}

/// A shape as it spawns.
pub open spec fn spawned(tetrimino: Tetrimino) -> PieceView {
    PieceView::fresh(tetrimino, spawn_offset(tetrimino))
}

/// The seven shapes, once each.
pub open spec fn full_bag() -> Seq<Tetrimino> {
    seq![
        Tetrimino::I,
        Tetrimino::J,
        Tetrimino::L,
        Tetrimino::O,
        Tetrimino::S,
        Tetrimino::T,
        Tetrimino::Z,
    ]
}

/// `bag` holds the seven shapes, once each, in some order.
pub open spec fn is_refill(bag: Seq<Tetrimino>) -> bool {
    bag.to_multiset() == full_bag().to_multiset()
}

/// The bag that the next shape is drawn from: `bag`, or `refill` when `bag`
/// is empty.
pub open spec fn topped_up(bag: Seq<Tetrimino>, refill: Seq<Tetrimino>) -> Seq<Tetrimino> {
    if bag.len() == 0 {
        refill
    } else {
        bag
    }
}

/// The shapes of the next `count` spawns, from `bag` on: each spawn takes the
/// last shape of the bag, and an empty bag is first filled with the next of
/// `refills`.
pub open spec fn spawns(bag: Seq<Tetrimino>, refills: Seq<Seq<Tetrimino>>, count: nat) -> Seq<
    Tetrimino,
>
    decreases count,
{
    if count == 0 {
        Seq::empty()
    } else {
        let full = topped_up(bag, refills.first());
        let rest = if bag.len() == 0 {
            refills.drop_first()
        } else {
            refills
        };
        seq![full.last()] + spawns(full.drop_last(), rest, (count - 1) as nat)
    }
}

/// Where a hard drop leaves the piece: as far down as it can go before the
/// next step down would collide.
pub open spec fn dropped(grid: Seq<Seq<BoardPixel>>, piece: PieceView) -> PieceView
    decreases piece.offset.1 + 5,
{
    if piece.offset.1 < -4 || collides(grid, piece.shifted(0, -1)) {
        piece
    } else {
        dropped(grid, piece.shifted(0, -1))
    }
}

/// The lock of `piece`: it is written into the board, the full rows that its
/// mask spans are cleared, the engine has no piece and may hold again. The
/// lock is reported, and then the cleared rows when there are any.
pub open spec fn locked(state: EngineView, piece: PieceView) -> Outcome {
    let scan = swept(with_piece(state.board, piece), piece.offset.1, piece.cells.len());
    Outcome {
        state: EngineView { board: scan.0, piece: None, held_this_drop: false, ..state },
        events: if scan.1 > 0 {
            seq![TetrisOut::LockedPiece, TetrisOut::RemovedRows(scan.1 as usize)]
        } else {
            seq![TetrisOut::LockedPiece]
        },
    }
}

/// `outcome` with the report that `event` was accepted in front.
pub open spec fn accepted(event: TetrisIn, outcome: Outcome) -> Outcome {
    Outcome { state: outcome.state, events: seq![TetrisOut::ValidIn(event)] + outcome.events }
}

/// A state reached without any event.
pub open spec fn quiet(state: EngineView) -> Outcome {
    Outcome { state, events: Seq::empty() }
}

/// A step of the piece to `target`: taken when `target` is clear of the
/// board, rejected without a trace when it is not.
pub open spec fn moved_to(state: EngineView, target: PieceView, event: TetrisIn) -> Outcome {
    if collides(state.board, target) {
        quiet(state)
    } else {
        accepted(event, quiet(EngineView { piece: Some(target), ..state }))
    }
}

/// A step down of `piece`: taken when the cell below is clear, else the
/// piece locks where it is. Either way `event` is accepted.
pub open spec fn lowered(state: EngineView, piece: PieceView, event: TetrisIn) -> Outcome {
    if collides(state.board, piece.shifted(0, -1)) {
        accepted(event, locked(state, piece))
    } else {
        accepted(event, quiet(EngineView { piece: Some(piece.shifted(0, -1)), ..state }))
    }
}

/// What a player's action does to a running engine with the piece `piece`.
pub open spec fn user_step(state: EngineView, piece: PieceView, input: UserInput) -> Outcome {
    let event = TetrisIn::User(input);
    match input {
        UserInput::Left => moved_to(state, piece.shifted(-1, 0), event),
        UserInput::Right => moved_to(state, piece.shifted(1, 0), event),
        UserInput::RotateClockwise => match rotated(piece, Rotation::Clockwise, state.board) {
            Some(turned) => accepted(event, quiet(EngineView { piece: Some(turned), ..state })),
            None => quiet(state),
        },
        UserInput::DropSoft => lowered(state, piece, event),
        UserInput::DropHard => accepted(event, locked(state, dropped(state.board, piece))),
        UserInput::Hold => if state.held_this_drop {
            quiet(state)
        } else {
            accepted(
                event,
                quiet(
                    EngineView {
                        piece: match state.held_piece {
                            Some(held) => Some(spawned(held)),
                            None => None,
                        },
                        held_piece: Some(piece.tetrimino),
                        held_this_drop: true,
                        ..state
                    },
                ),
            )
        },
    }
}

/// What a tick does to a running engine. With a piece, gravity: a step down
/// or the lock. Without one, the next shape leaves the bag, which is `refill`
/// when it was empty, and spawns; if it collides where it spawns, the engine
/// stops and reports the loss.
pub open spec fn tick_step(state: EngineView, refill: Seq<Tetrimino>) -> Outcome {
    match state.piece {
        Some(piece) => lowered(state, piece, TetrisIn::Tick),
        None => {
            let bag = topped_up(state.piece_bag, refill);
            let piece = spawned(bag.last());
            if collides(state.board, piece) {
                Outcome {
                    state: EngineView { running: false, piece_bag: bag.drop_last(), ..state },
                    events: seq![TetrisOut::ValidIn(TetrisIn::Tick), TetrisOut::Lose],
                }
            } else {
                accepted(
                    TetrisIn::Tick,
                    quiet(EngineView { piece: Some(piece), piece_bag: bag.drop_last(), ..state }),
                )
            }
        },
    }
}

/// What a command does. `refill` is the shuffled bag to use if a shape is
/// needed and the bag is empty; `gaps` are the gap columns of the garbage
/// rows to inject.
pub open spec fn step(
    state: EngineView,
    event: TetrisIn,
    refill: Seq<Tetrimino>,
    gaps: Seq<usize>,
) -> Outcome {
    match event {
        TetrisIn::Start(seed) => accepted(
            event,
            quiet(EngineView { running: true, board: empty_grid(), piece: None, ..state }),
        ),
        TetrisIn::User(input) => match state.piece {
            Some(piece) => if state.running {
                user_step(state, piece, input)
            } else {
                quiet(state)
            },
            None => quiet(state),
        },
        TetrisIn::Tick => if state.running {
            tick_step(state, refill)
        } else {
            quiet(state)
        },
        TetrisIn::AddRows(count) => if state.running {
            accepted(
                event,
                quiet(EngineView { board: raised(state.board, count as int, gaps), ..state }),
            )
        } else {
            quiet(state)
        },
    }
}

/// The command `event` draws on chance in `state`: it injects garbage, or
/// it spawns from an empty bag.
pub open spec fn needs_draw(state: EngineView, event: TetrisIn) -> bool {
    state.running && match event {
        TetrisIn::AddRows(_) => true,
        TetrisIn::Tick => state.piece is None && state.piece_bag.len() == 0,
        _ => false,
    }
}

/// `refill` and `gaps` can be the random draws of the command `event` in
/// `state`.
pub open spec fn is_draw(
    state: EngineView,
    event: TetrisIn,
    refill: Seq<Tetrimino>,
    gaps: Seq<usize>,
) -> bool {
    &&& is_refill(refill)
    &&& state.running ==> match event {
        TetrisIn::AddRows(count) => count > 0 && is_gaps(gaps, count as int),
        _ => true,
    }
}

impl EngineView {
    /// The piece, if there is one, has the mask of its shape and
    /// orientation, and no shape is twice in the bag.
    pub open spec fn wf(self) -> bool {
        &&& is_grid(self.board)
        &&& self.piece matches Some(piece) ==> piece.wf()
        &&& self.piece_bag.no_duplicates()
    }

    /// An engine before its first start.
    pub open spec fn initial() -> EngineView {
        EngineView {
            running: false,
            board: empty_grid(),
            piece: None,
            held_piece: None,
            held_this_drop: false,
            piece_bag: Seq::empty(),
        }
    }
}

/// A refill has seven shapes, none of them twice.
pub proof fn lemma_refill(refill: Seq<Tetrimino>)
    requires
        is_refill(refill),
    ensures
        refill.len() == 7,
        refill.no_duplicates(),
{
    assert(full_bag().len() == 7);
    assert(full_bag().no_duplicates());
    vstd::seq_lib::to_multiset_len(full_bag());
    vstd::seq_lib::to_multiset_len(refill);
    full_bag().lemma_multiset_has_no_duplicates();
    refill.lemma_multiset_has_no_duplicates_conv();
}

/// A shape as it spawns, at its fixed offset and facing north.
pub fn spawn_piece(tetrimino: Tetrimino) -> (piece: Piece)
    ensures
        piece@ == spawned(tetrimino),
        piece@.wf(),
{
    let offset: (isize, isize) = match tetrimino {
        Tetrimino::I => (3, 21 - 3),
        Tetrimino::O => (4, 22 - 2),
        _ => (3, 22 - 3),
    };
    Piece::new(tetrimino, offset)
}

/// `update` and `state` are what `outcome` says: the state reached, the
/// events in order, and a change flag that is set when there is any event.
pub open spec fn reports(update: UpdatedState, state: EngineView, outcome: Outcome) -> bool {
    &&& state == outcome.state
    &&& update.events@ == outcome.events
    &&& update.board_changed == (outcome.events.len() > 0)
}

/// The engine of one player. It starts out stopped, runs from a start on,
/// and stops again when a shape cannot spawn.
pub struct TetrisGameSystem {
    running: bool,
    piece: Option<Piece>,
    held_piece: Option<Tetrimino>,
    /// tracks whether we've held a piece this drop
    held_this_drop: bool,
    board: Board,
    piece_bag: Vec<Tetrimino>,
    rng: StdRng,
}

impl View for TetrisGameSystem {
    type V = EngineView;

    closed spec fn view(&self) -> EngineView {
        EngineView {
            running: self.running,
            board: self.board@,
            piece: match self.piece {
                Some(piece) => Some(piece@),
                None => None,
            },
            held_piece: self.held_piece,
            held_this_drop: self.held_this_drop,
            piece_bag: self.piece_bag@,
        }
    }
}

impl TetrisGameSystem {
    /// An engine that waits for its first start.
    pub fn new() -> (engine: TetrisGameSystem)
        ensures
            engine@ == EngineView::initial(),
            engine@.wf(),
    {
        TetrisGameSystem {
            running: false,
            piece: None,
            held_piece: None,
            held_this_drop: false,
            board: Board::new(),
            piece_bag: Vec::new(),
            rng: seeded(0),
        }
    }

    pub fn is_running(&self) -> (running: bool)
        ensures
            running == self@.running,
    {
        self.running
    }

    pub fn board(&self) -> (board: &Board)
        ensures
            board@ == self@.board,
    {
        &self.board
    }

    /// The falling piece, if there is one.
    pub fn piece(&self) -> (piece: Option<&Piece>)
        ensures
            match piece {
                Some(piece) => self@.piece == Some(piece@),
                None => self@.piece is None,
            },
    {
        match &self.piece {
            Some(piece) => Some(piece),
            None => None,
        }
    }

    pub fn held_piece(&self) -> (held: Option<Tetrimino>)
        ensures
            held == self@.held_piece,
    {
        self.held_piece
    }

    /// A copy of the falling piece, if there is one.
    fn current_piece(&self) -> (piece: Option<Piece>)
        ensures
            match piece {
                Some(piece) => self@.piece == Some(piece@),
                None => self@.piece is None,
            },
    {
        match &self.piece {
            Some(piece) => Some(piece.clone()),
            None => None,
        }
    }

    /// Applies a command, drawing from the engine's generator what the
    /// command needs of chance: a start seeds it, a spawn from an empty bag
    /// shuffles the seven shapes, an injection draws the gap of each row.
    /// The outcome is that of `step` for some such draws, and where the
    /// command needs none it is the one outcome that `step` has. A running
    /// engine must not be asked to inject zero rows.
    pub fn handle_event(&mut self, event: TetrisIn) -> (update: UpdatedState)
        requires
            old(self)@.wf(),
            old(self)@.running ==> event != TetrisIn::AddRows(0),
        ensures
            final(self)@.wf(),
            exists|refill: Seq<Tetrimino>, gaps: Seq<usize>|
                is_draw(old(self)@, event, refill, gaps) && reports(
                    update,
                    final(self)@,
                    #[trigger] step(old(self)@, event, refill, gaps),
                ),
            !needs_draw(old(self)@, event) ==> reports(
                update,
                final(self)@,
                step(old(self)@, event, full_bag(), Seq::empty()),
            ),
    {
        let mut refill = Self::unshuffled_bag();
        let mut gaps: Vec<usize> = Vec::new();
        match event {
            TetrisIn::Start(seed) => {
                self.rng = seeded(seed);
            },
            TetrisIn::Tick => {
                if self.running && self.piece.is_none() && self.piece_bag.len() == 0 {
                    // shuffle the bag
                    shuffle(&mut refill, &mut self.rng);
                }
            },
            TetrisIn::AddRows(count) => {
                if self.running {
                    gaps = Board::draw_gaps(count, &mut self.rng);
                }
            },
            TetrisIn::User(_) => {},
        }
        let ghost drawn_refill = refill@;
        assert(self@ == old(self)@);
        assert(is_draw(old(self)@, event, drawn_refill, gaps@));
        self.apply(event, refill, &gaps)
    }

    /// Applies a command with the draws given: `refill` is the bag to use if
    /// a shape is needed and the bag is empty, `gaps` the gap columns of the
    /// rows to inject.
    pub fn apply(&mut self, event: TetrisIn, refill: Vec<Tetrimino>, gaps: &Vec<usize>) -> (update:
        UpdatedState)
        requires
            old(self)@.wf(),
            is_draw(old(self)@, event, refill@, gaps@),
        ensures
            final(self)@.wf(),
            reports(update, final(self)@, step(old(self)@, event, refill@, gaps@)),
    {
        match event {
            TetrisIn::Start(seed) => {
                self.running = true;
                // clear our board
                self.board = Board::new();
                self.piece = None;
                UpdatedState::input(true, TetrisIn::Start(seed))
            },
            TetrisIn::User(input) => {
                if self.running {
                    self.handle_input(input)
                } else {
                    UpdatedState::empty()
                }
            },
            TetrisIn::Tick => {
                if self.running {
                    self.tick(refill)
                } else {
                    UpdatedState::empty()
                }
            },
            TetrisIn::AddRows(count) => {
                if self.running {
                    self.add_rows_event(count, gaps)
                } else {
                    UpdatedState::empty()
                }
            },
        }
    }

    /// Moves the piece to where `piece` would be after a step of
    /// `(dx, dy)`, if that place is clear of the board.
    fn try_move(&mut self, piece: &Piece, dx: isize, dy: isize) -> (valid_change: bool)
        requires
            old(self)@.wf(),
            piece@.wf(),
        ensures
            final(self)@.wf(),
            valid_change == !collides(old(self)@.board, piece@.shifted(dx as int, dy as int)),
            final(self)@ == if valid_change {
                EngineView { piece: Some(piece@.shifted(dx as int, dy as int)), ..old(self)@ }
            } else {
                old(self)@
            },
    {
        match piece.moved(dx, dy) {
            Some(target) => {
                if !self.board.check_collision(&target) {
                    self.piece = Some(target);
                    true
                } else {
                    false
                }
            },
            None => {
                proof {
                    lemma_far_piece_collides(self@.board, piece@.shifted(dx as int, dy as int));
                }
                false
            },
        }
    }

    fn handle_input(&mut self, event: UserInput) -> (update: UpdatedState)
        requires
            old(self)@.wf(),
            old(self)@.running,
        ensures
            final(self)@.wf(),
            reports(update, final(self)@, step(old(self)@, TetrisIn::User(event), Seq::empty(), Seq::empty())),
    {
        let piece = match self.current_piece() {
            Some(piece) => piece,
            None => {
                return UpdatedState::empty();
            },
        };
        match event {
            UserInput::Left => {
                if self.try_move(&piece, -1, 0) {
                    UpdatedState::input(true, TetrisIn::User(event))
                } else {
                    UpdatedState::empty()
                }
            },
            UserInput::Right => {
                if self.try_move(&piece, 1, 0) {
                    UpdatedState::input(true, TetrisIn::User(event))
                } else {
                    UpdatedState::empty()
                }
            },
            UserInput::RotateClockwise => {
                match piece.rotate(Rotation::Clockwise, &self.board) {
                    Some(rotated_piece) => {
                        self.piece = Some(rotated_piece);
                        UpdatedState::input(true, TetrisIn::User(event))
                    },
                    None => UpdatedState::empty(),
                }
            },
            UserInput::DropSoft => self.lower(piece, TetrisIn::User(event)),
            UserInput::DropHard => {
                let mut events: Vec<TetrisOut> = Vec::new();
                events.push(TetrisOut::ValidIn(TetrisIn::User(event)));
                let piece = self.drop_hard_piece(piece);
                // this move always locks the piece
                self.lock_piece(piece, &mut events);
                UpdatedState { board_changed: true, events }
            },
            UserInput::Hold => {
                if !self.held_this_drop {
                    self.piece = match self.held_piece {
                        Some(held) => Some(spawn_piece(held)),
                        None => None,
                    };
                    self.held_piece = Some(piece.tetrimino);
                    self.held_this_drop = true;
                    UpdatedState::input(true, TetrisIn::User(event))
                } else {
                    UpdatedState::empty()
                }
            },
        }
    }

    /// One step down of `piece`, or its lock when the way down is barred.
    fn lower(&mut self, piece: Piece, event: TetrisIn) -> (update: UpdatedState)
        requires
            old(self)@.wf(),
            piece@.wf(),
        ensures
            final(self)@.wf(),
            reports(update, final(self)@, lowered(old(self)@, piece@, event)),
    {
        let mut events: Vec<TetrisOut> = Vec::new();
        events.push(TetrisOut::ValidIn(event));
        // if we collided with something lock the piece where it is
        if !self.try_move(&piece, 0, -1) {
            self.lock_piece(piece, &mut events);
        }
        UpdatedState { board_changed: true, events }
    }

    fn tick(&mut self, refill: Vec<Tetrimino>) -> (update: UpdatedState)
        requires
            old(self)@.wf(),
            old(self)@.running,
            is_refill(refill@),
        ensures
            final(self)@.wf(),
            reports(update, final(self)@, tick_step(old(self)@, refill@)),
    {
        match self.current_piece() {
            Some(piece) => self.lower(piece, TetrisIn::Tick),
            None => {
                let next_tetrimino = self.pop_next_piece(refill);
                let new_piece = spawn_piece(next_tetrimino);
                let mut events: Vec<TetrisOut> = Vec::new();
                events.push(TetrisOut::ValidIn(TetrisIn::Tick));
                if self.board.check_collision(&new_piece) {
                    self.running = false;
                    events.push(TetrisOut::Lose);
                } else {
                    self.piece = Some(new_piece);
                }
                assert(events@ =~= tick_step(old(self)@, refill@).events);
                UpdatedState { board_changed: true, events }
            },
        }
    }

    /// Locks `piece`: reports the lock, writes the piece into the board,
    /// clears the full rows that its mask spans and reports how many.
    fn lock_piece(&mut self, piece: Piece, events: &mut Vec<TetrisOut>)
        requires
            old(self)@.wf(),
        ensures
            final(self)@.wf(),
            final(self)@ == locked(old(self)@, piece@).state,
            final(events)@ == old(events)@ + locked(old(self)@, piece@).events,
    {
        events.push(TetrisOut::LockedPiece);
        self.board.place(&piece);
        // check for filled rows
        let cleared_lines = self.board.sweep(&piece);
        self.piece = None;
        self.held_this_drop = false;
        if cleared_lines > 0 {
            // we cleared some rows
            events.push(TetrisOut::RemovedRows(cleared_lines));
        }
        proof {
            self.board.lemma_is_grid();
        }
        assert(events@ =~= old(events)@ + locked(old(self)@, piece@).events);
    }

    fn add_rows_event(&mut self, count: usize, gaps: &Vec<usize>) -> (update: UpdatedState)
        requires
            count > 0,
            is_gaps(gaps@, count as int),
        ensures
            final(self)@ == (EngineView {
                board: raised(old(self)@.board, count as int, gaps@),
                ..old(self)@
            }),
            update.board_changed,
            update.events@ == seq![TetrisOut::ValidIn(TetrisIn::AddRows(count))],
    {
        self.board.fill_rows_with(count, gaps);
        UpdatedState::input(true, TetrisIn::AddRows(count))
    }

    /// Where a hard drop would leave `piece` on this engine's board.
    pub fn drop_hard_piece(&self, piece: Piece) -> (landed: Piece)
        requires
            piece@.wf(),
        ensures
            landed@ == dropped(self@.board, piece@),
            landed@.wf(),
    {
        let mut landed = piece.clone();
        loop
            invariant
                landed@.wf(),
                dropped(self@.board, landed@) == dropped(self@.board, piece@),
            decreases landed@.offset.1 - isize::MIN,
        {
            match landed.moved(0, -1) {
                Some(lower) => {
                    if self.board.check_collision(&lower) {
                        return landed;
                    }
                    proof {
                        if landed@.offset.1 < -4 {
                            lemma_far_piece_collides(self@.board, lower@);
                        }
                    }
                    landed = lower;
                },
                None => {
                    proof {
                        lemma_far_piece_collides(self@.board, landed@.shifted(0, -1));
                    }
                    return landed;
                },
            }
        }
    }

    /// The seven shapes in their fixed order.
    fn unshuffled_bag() -> (bag: Vec<Tetrimino>)
        ensures
            bag@ == full_bag(),
    {
        let bag = vec![
            Tetrimino::I,
            Tetrimino::J,
            Tetrimino::L,
            Tetrimino::O,
            Tetrimino::S,
            Tetrimino::T,
            Tetrimino::Z,
        ];
        assert(bag@ =~= full_bag());
        bag
    }

    /// The shape that spawns next. An empty bag is filled first, with the
    /// seven shapes in an order drawn from the engine's generator.
    pub fn peek_next_piece(&mut self) -> (next: Tetrimino)
        requires
            old(self)@.wf(),
        ensures
            final(self)@.wf(),
            exists|refill: Seq<Tetrimino>|
                is_refill(refill) && final(self)@ == (EngineView {
                    piece_bag: #[trigger] topped_up(old(self)@.piece_bag, refill),
                    ..old(self)@
                }),
            final(self)@.piece_bag.len() > 0,
            next == final(self)@.piece_bag.last(),
    {
        if self.piece_bag.len() == 0 {
            // put all the pieces in the bag
            let mut bag = Self::unshuffled_bag();
            // shuffle the bag
            shuffle(&mut bag, &mut self.rng);
            proof {
                lemma_refill(bag@);
            }
            self.piece_bag = bag;
            assert(self@.piece_bag == topped_up(old(self)@.piece_bag, self@.piece_bag));
        } else {
            assert(self@.piece_bag == topped_up(old(self)@.piece_bag, full_bag()));
        }
        self.piece_bag[self.piece_bag.len() - 1]
    }

    /// Takes the next shape out of the bag, which is `refill` if it was empty.
    fn pop_next_piece(&mut self, refill: Vec<Tetrimino>) -> (next: Tetrimino)
        requires
            old(self)@.wf(),
            is_refill(refill@),
        ensures
            final(self)@.wf(),
            next == topped_up(old(self)@.piece_bag, refill@).last(),
            final(self)@ == (EngineView {
                piece_bag: topped_up(old(self)@.piece_bag, refill@).drop_last(),
                ..old(self)@
            }),
    {
        proof {
            lemma_refill(refill@);
        }
        if self.piece_bag.len() == 0 {
            self.piece_bag = refill;
        }
        let next = self.piece_bag[self.piece_bag.len() - 1];
        self.piece_bag.pop();
        next
    }
}

} // verus!
