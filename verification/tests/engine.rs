use tetris_for_two::engine::{spawn_piece, TetrisGameSystem, UpdatedState};
use tetris_for_two::events::{TetrisIn, TetrisOut, UserInput};
use tetris_for_two::piece::{Orientation, Piece};
use tetris_for_two::tetrimino::{BoardPixel, PixelColor, Tetrimino};

const GRAY: BoardPixel = BoardPixel::Filled(PixelColor::Gray);

const UNSHUFFLED: [Tetrimino; 7] = [
    Tetrimino::I,
    Tetrimino::J,
    Tetrimino::L,
    Tetrimino::O,
    Tetrimino::S,
    Tetrimino::T,
    Tetrimino::Z,
];

fn user(input: UserInput) -> TetrisIn {
    TetrisIn::User(input)
}

fn valid(event: TetrisIn) -> TetrisOut {
    TetrisOut::ValidIn(event)
}

/// A refill from which `first` spawns first.
fn refill_with(first: Tetrimino) -> Vec<Tetrimino> {
    let mut bag: Vec<Tetrimino> = UNSHUFFLED
        .iter()
        .copied()
        .filter(|tetrimino| *tetrimino != first)
        .collect();
    bag.push(first);
    bag
}

fn apply(engine: &mut TetrisGameSystem, event: TetrisIn) -> Vec<TetrisOut> {
    engine.apply(event, UNSHUFFLED.to_vec(), &vec![]).events
}

fn started_with(first: Tetrimino) -> TetrisGameSystem {
    let mut engine = TetrisGameSystem::new();
    apply(&mut engine, TetrisIn::Start(1));
    let update = engine.apply(TetrisIn::Tick, refill_with(first), &vec![]);
    assert_eq!(update.events, vec![valid(TetrisIn::Tick)]);
    engine
}

fn snapshot(engine: &TetrisGameSystem) -> Vec<BoardPixel> {
    let mut cells = Vec::new();
    for y in 0..40 {
        for x in 0..10 {
            cells.push(engine.board().get(x, y));
        }
    }
    cells
}

fn empty_cells(engine: &TetrisGameSystem, y: isize) -> Vec<isize> {
    (0..10)
        .filter(|x| engine.board().get(*x, y) == BoardPixel::Empty)
        .collect()
}

fn offset(engine: &TetrisGameSystem) -> (isize, isize) {
    engine.piece().unwrap().offset
}

/// Spawns fourteen pieces, spreads them over the board and lets each fall.
fn fourteen_spawns(seed: u64) -> Vec<Tetrimino> {
    let mut engine = TetrisGameSystem::new();
    engine.handle_event(TetrisIn::Start(seed));
    let mut spawned = Vec::new();
    for round in 0..14 {
        let update = engine.handle_event(TetrisIn::Tick);
        assert_eq!(update.events, vec![valid(TetrisIn::Tick)]);
        spawned.push(engine.piece().unwrap().tetrimino);
        let step = match round % 3 {
            0 => Some(UserInput::Left),
            1 => Some(UserInput::Right),
            _ => None,
        };
        if let Some(step) = step {
            for _ in 0..3 {
                engine.handle_event(user(step));
            }
        }
        let update = engine.handle_event(user(UserInput::DropHard));
        assert_eq!(update.events[0], valid(user(UserInput::DropHard)));
        assert_eq!(update.events[1], TetrisOut::LockedPiece);
    }
    spawned
}

#[test]
fn updated_state_builders() {
    let update = UpdatedState::input(true, TetrisIn::Tick);
    assert!(update.board_changed);
    assert_eq!(update.events, vec![valid(TetrisIn::Tick)]);
    let update = UpdatedState::input(false, TetrisIn::AddRows(2));
    assert!(!update.board_changed);
    assert_eq!(update.events, vec![valid(TetrisIn::AddRows(2))]);
    let update = UpdatedState::empty();
    assert!(!update.board_changed);
    assert!(update.events.is_empty());
}

#[test]
fn spawn_offsets_are_fixed() {
    assert_eq!(spawn_piece(Tetrimino::I).offset, (3, 18));
    assert_eq!(spawn_piece(Tetrimino::O).offset, (4, 20));
    for tetrimino in [
        Tetrimino::J,
        Tetrimino::L,
        Tetrimino::S,
        Tetrimino::T,
        Tetrimino::Z,
    ] {
        let piece = spawn_piece(tetrimino);
        assert_eq!(piece.offset, (3, 19));
        assert_eq!(piece.orientation, Orientation::North);
        assert_eq!(piece, Piece::new(tetrimino, (3, 19)));
    }
}

#[test]
fn new_engine_waits_for_a_start() {
    let mut engine = TetrisGameSystem::new();
    assert!(!engine.is_running());
    assert!(engine.piece().is_none());
    assert_eq!(engine.held_piece(), None);
    for event in [
        TetrisIn::Tick,
        TetrisIn::AddRows(2),
        TetrisIn::AddRows(0),
        user(UserInput::Left),
        user(UserInput::DropHard),
        user(UserInput::Hold),
    ] {
        let update = engine.handle_event(event);
        assert!(update.events.is_empty());
        assert!(!update.board_changed);
    }
    assert!(!engine.is_running());
    assert!(engine.piece().is_none());
    assert!(snapshot(&engine).iter().all(|pixel| *pixel == BoardPixel::Empty));
}

#[test]
fn start_tick_hard_drop() {
    let mut engine = TetrisGameSystem::new();
    let update = engine.handle_event(TetrisIn::Start(42));
    assert_eq!(update.events, vec![valid(TetrisIn::Start(42))]);
    assert!(update.board_changed);
    assert!(engine.is_running());
    assert!(engine.piece().is_none());

    let update = engine.handle_event(TetrisIn::Tick);
    assert_eq!(update.events, vec![valid(TetrisIn::Tick)]);
    let piece = engine.piece().unwrap().clone();
    assert_eq!(piece, spawn_piece(piece.tetrimino));

    let update = engine.handle_event(user(UserInput::DropHard));
    assert_eq!(
        update.events,
        vec![valid(user(UserInput::DropHard)), TetrisOut::LockedPiece]
    );
    assert!(update.board_changed);
    assert!(engine.piece().is_none());
    let filled = snapshot(&engine)
        .iter()
        .filter(|pixel| **pixel == BoardPixel::Filled(piece.tetrimino.color()))
        .count();
    assert_eq!(filled, 4);
}

#[test]
fn hard_drop_that_fills_a_row_reports_it_last() {
    let mut engine = TetrisGameSystem::new();
    apply(&mut engine, TetrisIn::Start(1));
    let update = engine.apply(TetrisIn::AddRows(1), UNSHUFFLED.to_vec(), &vec![0]);
    assert_eq!(update.events, vec![valid(TetrisIn::AddRows(1))]);
    engine.apply(TetrisIn::Tick, refill_with(Tetrimino::I), &vec![]);
    assert_eq!(offset(&engine), (3, 18));
    assert_eq!(
        apply(&mut engine, user(UserInput::RotateClockwise)),
        vec![valid(user(UserInput::RotateClockwise))]
    );
    assert_eq!(engine.piece().unwrap().orientation, Orientation::East);
    for _ in 0..5 {
        assert_eq!(
            apply(&mut engine, user(UserInput::Left)),
            vec![valid(user(UserInput::Left))]
        );
    }
    assert_eq!(offset(&engine), (-2, 18));
    assert!(apply(&mut engine, user(UserInput::Left)).is_empty());
    assert_eq!(offset(&engine), (-2, 18));
    assert_eq!(
        engine.drop_hard_piece(engine.piece().unwrap().clone()).offset,
        (-2, 0)
    );
    let events = apply(&mut engine, user(UserInput::DropHard));
    assert_eq!(
        events,
        vec![
            valid(user(UserInput::DropHard)),
            TetrisOut::LockedPiece,
            TetrisOut::RemovedRows(1)
        ]
    );
    let blue = BoardPixel::Filled(PixelColor::LightBlue);
    for x in 0..10 {
        for y in 0..40 {
            let expected = if x == 0 && y < 3 { blue } else { BoardPixel::Empty };
            assert_eq!(engine.board().get(x, y), expected, "({}, {})", x, y);
        }
    }
}

#[test]
fn four_rows_at_once() {
    let mut engine = TetrisGameSystem::new();
    apply(&mut engine, TetrisIn::Start(1));
    engine.apply(TetrisIn::AddRows(4), UNSHUFFLED.to_vec(), &vec![0, 0, 0, 0]);
    engine.apply(TetrisIn::Tick, refill_with(Tetrimino::I), &vec![]);
    apply(&mut engine, user(UserInput::RotateClockwise));
    for _ in 0..5 {
        apply(&mut engine, user(UserInput::Left));
    }
    let events = apply(&mut engine, user(UserInput::DropHard));
    assert_eq!(
        events,
        vec![
            valid(user(UserInput::DropHard)),
            TetrisOut::LockedPiece,
            TetrisOut::RemovedRows(4)
        ]
    );
    assert!(snapshot(&engine).iter().all(|pixel| *pixel == BoardPixel::Empty));
}

#[test]
fn moves_are_rejected_at_the_walls() {
    let mut engine = started_with(Tetrimino::O);
    assert_eq!(offset(&engine), (4, 20));
    for x in (0..4).rev() {
        assert_eq!(
            apply(&mut engine, user(UserInput::Left)),
            vec![valid(user(UserInput::Left))]
        );
        assert_eq!(offset(&engine), (x, 20));
    }
    let update = engine.apply(user(UserInput::Left), UNSHUFFLED.to_vec(), &vec![]);
    assert!(update.events.is_empty());
    assert!(!update.board_changed);
    assert_eq!(offset(&engine), (0, 20));
    for x in 1..=8 {
        assert_eq!(
            apply(&mut engine, user(UserInput::Right)),
            vec![valid(user(UserInput::Right))]
        );
        assert_eq!(offset(&engine), (x, 20));
    }
    assert!(apply(&mut engine, user(UserInput::Right)).is_empty());
    assert_eq!(offset(&engine), (8, 20));
    // the O never turns
    assert!(apply(&mut engine, user(UserInput::RotateClockwise)).is_empty());
    assert_eq!(engine.piece().unwrap().orientation, Orientation::North);
}

#[test]
fn soft_drop_steps_down_and_locks_on_the_floor() {
    let mut engine = started_with(Tetrimino::O);
    for y in (0..20).rev() {
        assert_eq!(
            apply(&mut engine, user(UserInput::DropSoft)),
            vec![valid(user(UserInput::DropSoft))]
        );
        assert_eq!(offset(&engine), (4, y));
    }
    assert_eq!(
        apply(&mut engine, user(UserInput::DropSoft)),
        vec![valid(user(UserInput::DropSoft)), TetrisOut::LockedPiece]
    );
    assert!(engine.piece().is_none());
    let yellow = BoardPixel::Filled(PixelColor::Yellow);
    assert_eq!(engine.board().get(4, 0), yellow);
    assert_eq!(engine.board().get(5, 0), yellow);
    assert_eq!(engine.board().get(4, 1), yellow);
    assert_eq!(engine.board().get(5, 1), yellow);
    assert_eq!(empty_cells(&engine, 0).len(), 8);
    assert_eq!(empty_cells(&engine, 2).len(), 10);
    // without a piece an action does nothing
    assert!(apply(&mut engine, user(UserInput::DropSoft)).is_empty());
    assert!(apply(&mut engine, user(UserInput::Hold)).is_empty());
}

#[test]
fn gravity_steps_down_and_locks() {
    let mut engine = started_with(Tetrimino::T);
    // the T fills rows 20 and 21 from its offset row 19; it rests with its offset at row -1
    for y in (-1..19).rev() {
        assert_eq!(apply(&mut engine, TetrisIn::Tick), vec![valid(TetrisIn::Tick)]);
        assert_eq!(offset(&engine), (3, y));
    }
    assert_eq!(
        apply(&mut engine, TetrisIn::Tick),
        vec![valid(TetrisIn::Tick), TetrisOut::LockedPiece]
    );
    assert!(engine.piece().is_none());
    let magenta = BoardPixel::Filled(PixelColor::Magenta);
    assert_eq!(engine.board().get(3, 0), magenta);
    assert_eq!(engine.board().get(4, 0), magenta);
    assert_eq!(engine.board().get(5, 0), magenta);
    assert_eq!(engine.board().get(4, 1), magenta);
    // the next tick spawns the next shape of the bag
    assert_eq!(apply(&mut engine, TetrisIn::Tick), vec![valid(TetrisIn::Tick)]);
    assert_eq!(engine.piece().unwrap().tetrimino, Tetrimino::Z);
}

#[test]
fn hold_swaps_once_per_drop() {
    let mut engine = started_with(Tetrimino::T);
    assert_eq!(
        apply(&mut engine, user(UserInput::Hold)),
        vec![valid(user(UserInput::Hold))]
    );
    assert_eq!(engine.held_piece(), Some(Tetrimino::T));
    assert!(engine.piece().is_none());
    // the bag goes on: Z is next in the refill that T came from
    assert_eq!(apply(&mut engine, TetrisIn::Tick), vec![valid(TetrisIn::Tick)]);
    assert_eq!(engine.piece().unwrap().tetrimino, Tetrimino::Z);
    // held once already on this drop
    assert!(apply(&mut engine, user(UserInput::Hold)).is_empty());
    assert_eq!(engine.held_piece(), Some(Tetrimino::T));
    assert_eq!(engine.piece().unwrap().tetrimino, Tetrimino::Z);
    apply(&mut engine, user(UserInput::DropHard));
    assert_eq!(apply(&mut engine, TetrisIn::Tick), vec![valid(TetrisIn::Tick)]);
    assert_eq!(engine.piece().unwrap().tetrimino, Tetrimino::S);
    apply(&mut engine, user(UserInput::DropSoft));
    assert_eq!(
        apply(&mut engine, user(UserInput::Hold)),
        vec![valid(user(UserInput::Hold))]
    );
    assert_eq!(engine.held_piece(), Some(Tetrimino::S));
    assert_eq!(*engine.piece().unwrap(), spawn_piece(Tetrimino::T));
    assert!(apply(&mut engine, user(UserInput::Hold)).is_empty());
}

#[test]
fn ticks_alone_end_in_a_loss_that_only_a_start_lifts() {
    let mut engine = TetrisGameSystem::new();
    engine.handle_event(TetrisIn::Start(5));
    let mut lost = false;
    for _ in 0..100_000 {
        let update = engine.handle_event(TetrisIn::Tick);
        assert_eq!(update.events[0], valid(TetrisIn::Tick));
        if update.events.contains(&TetrisOut::Lose) {
            assert_eq!(update.events, vec![valid(TetrisIn::Tick), TetrisOut::Lose]);
            lost = true;
            break;
        }
    }
    assert!(lost);
    assert!(!engine.is_running());
    assert!(engine.piece().is_none());
    let board = snapshot(&engine);
    let held = engine.held_piece();
    for event in [
        TetrisIn::Tick,
        TetrisIn::AddRows(3),
        user(UserInput::Left),
        user(UserInput::Right),
        user(UserInput::RotateClockwise),
        user(UserInput::DropSoft),
        user(UserInput::DropHard),
        user(UserInput::Hold),
        TetrisIn::Tick,
    ] {
        let update = engine.handle_event(event);
        assert!(update.events.is_empty());
        assert!(!update.board_changed);
        assert!(!engine.is_running());
        assert!(engine.piece().is_none());
        assert_eq!(engine.held_piece(), held);
        assert_eq!(snapshot(&engine), board);
    }
    let update = engine.handle_event(TetrisIn::Start(6));
    assert_eq!(update.events, vec![valid(TetrisIn::Start(6))]);
    assert!(engine.is_running());
    assert!(snapshot(&engine).iter().all(|pixel| *pixel == BoardPixel::Empty));
    assert_eq!(engine.handle_event(TetrisIn::Tick).events, vec![valid(TetrisIn::Tick)]);
    assert!(engine.piece().is_some());
}

#[test]
fn start_clears_the_board_and_the_piece() {
    let mut engine = started_with(Tetrimino::L);
    engine.apply(TetrisIn::AddRows(2), UNSHUFFLED.to_vec(), &vec![1, 2]);
    assert!(engine.piece().is_some());
    assert_eq!(
        apply(&mut engine, TetrisIn::Start(9)),
        vec![valid(TetrisIn::Start(9))]
    );
    assert!(engine.is_running());
    assert!(engine.piece().is_none());
    assert!(snapshot(&engine).iter().all(|pixel| *pixel == BoardPixel::Empty));
}

#[test]
fn garbage_arrives_at_once_and_leaves_the_piece_alone() {
    let mut engine = TetrisGameSystem::new();
    engine.handle_event(TetrisIn::Start(8));
    engine.handle_event(TetrisIn::Tick);
    engine.handle_event(TetrisIn::Tick);
    let before = engine.piece().unwrap().clone();
    let update = engine.handle_event(TetrisIn::AddRows(3));
    assert_eq!(update.events, vec![valid(TetrisIn::AddRows(3))]);
    assert!(update.board_changed);
    assert_eq!(*engine.piece().unwrap(), before);
    for y in 0..3 {
        assert_eq!(empty_cells(&engine, y).len(), 1);
        for x in 0..10 {
            let pixel = engine.board().get(x, y);
            assert!(pixel == BoardPixel::Empty || pixel == GRAY);
        }
    }
    for y in 3..40 {
        assert_eq!(empty_cells(&engine, y).len(), 10);
    }
    let update = engine.handle_event(TetrisIn::Tick);
    assert_eq!(update.events, vec![valid(TetrisIn::Tick)]);
    assert_eq!(offset(&engine), (before.offset.0, before.offset.1 - 1));
}

#[test]
fn garbage_under_a_piece_shows_at_its_next_move() {
    let mut engine = started_with(Tetrimino::O);
    for _ in 0..20 {
        apply(&mut engine, user(UserInput::DropSoft));
    }
    assert_eq!(offset(&engine), (4, 0));
    let update = engine.apply(TetrisIn::AddRows(2), UNSHUFFLED.to_vec(), &vec![9, 9]);
    assert_eq!(update.events, vec![valid(TetrisIn::AddRows(2))]);
    // the piece sits inside the garbage now, and the board does not hold it yet
    assert_eq!(offset(&engine), (4, 0));
    assert_eq!(engine.board().get(4, 0), GRAY);
    assert_eq!(engine.board().get(5, 1), GRAY);
    assert!(engine.board().check_collision(engine.piece().unwrap()));
    assert!(apply(&mut engine, user(UserInput::Left)).is_empty());
    assert!(apply(&mut engine, user(UserInput::Right)).is_empty());
    assert_eq!(offset(&engine), (4, 0));
    assert_eq!(
        apply(&mut engine, user(UserInput::DropSoft)),
        vec![valid(user(UserInput::DropSoft)), TetrisOut::LockedPiece]
    );
    let yellow = BoardPixel::Filled(PixelColor::Yellow);
    assert_eq!(engine.board().get(4, 0), yellow);
    assert_eq!(engine.board().get(5, 1), yellow);
    assert_eq!(engine.board().get(3, 0), GRAY);
    assert_eq!(empty_cells(&engine, 0), vec![9]);
    assert_eq!(empty_cells(&engine, 1), vec![9]);
}

#[test]
fn every_shape_twice_in_fourteen_spawns() {
    for seed in [0, 1, 42, 1234567] {
        let spawned = fourteen_spawns(seed);
        assert_eq!(spawned.len(), 14);
        for tetrimino in UNSHUFFLED {
            assert_eq!(
                spawned.iter().filter(|shape| **shape == tetrimino).count(),
                2,
                "{:?} with seed {}",
                tetrimino,
                seed
            );
            assert_eq!(
                spawned[..7].iter().filter(|shape| **shape == tetrimino).count(),
                1
            );
        }
    }
}

#[test]
fn the_same_seed_gives_the_same_game() {
    assert_eq!(fourteen_spawns(77), fourteen_spawns(77));
    let mut first = TetrisGameSystem::new();
    let mut second = TetrisGameSystem::new();
    for engine in [&mut first, &mut second] {
        engine.handle_event(TetrisIn::Start(77));
        engine.handle_event(TetrisIn::AddRows(12));
    }
    assert_eq!(snapshot(&first), snapshot(&second));
}

#[test]
fn the_bag_is_shuffled_and_the_seed_counts() {
    let mut unshuffled: Vec<Tetrimino> = UNSHUFFLED.to_vec();
    unshuffled.reverse();
    let runs: Vec<Vec<Tetrimino>> = (0..8).map(fourteen_spawns).collect();
    assert!(runs.iter().any(|run| run[..7] != unshuffled[..]));
    assert!(runs.iter().any(|run| *run != runs[0]));
}

#[test]
fn peek_shows_the_next_spawn() {
    let mut engine = TetrisGameSystem::new();
    engine.handle_event(TetrisIn::Start(3));
    for _ in 0..9 {
        let next = engine.peek_next_piece();
        assert_eq!(engine.peek_next_piece(), next);
        engine.handle_event(TetrisIn::Tick);
        assert_eq!(engine.piece().unwrap().tetrimino, next);
        engine.handle_event(user(UserInput::Hold));
        engine.handle_event(TetrisIn::Tick);
        engine.handle_event(user(UserInput::DropHard));
        if engine.piece().is_some() {
            engine.handle_event(user(UserInput::DropHard));
        }
    }
}

#[test]
fn hard_drop_lands_on_what_is_there() {
    let mut engine = started_with(Tetrimino::O);
    apply(&mut engine, user(UserInput::DropHard));
    engine.apply(TetrisIn::Tick, refill_with(Tetrimino::O), &vec![]);
    // the bag still holds shapes of the first refill, the next one is Z
    assert_eq!(engine.piece().unwrap().tetrimino, Tetrimino::Z);
    let ghost = engine.drop_hard_piece(engine.piece().unwrap().clone());
    // the Z fills (3, 2), (4, 2) of its top row and (4, 1), (5, 1) below: it rests on the O
    assert_eq!(ghost.offset, (3, 1));
    assert_eq!(offset(&engine), (3, 19));
    apply(&mut engine, user(UserInput::DropHard));
    let red = BoardPixel::Filled(PixelColor::Red);
    assert_eq!(engine.board().get(4, 2), red);
    assert_eq!(engine.board().get(5, 2), red);
    assert_eq!(engine.board().get(3, 3), red);
    assert_eq!(engine.board().get(4, 3), red);
}

#[test]
fn no_shape_thrice_in_seven_spawns() {
    for seed in [2, 3, 5, 8] {
        let spawned = fourteen_spawns(seed);
        for start in 0..=7 {
            for tetrimino in UNSHUFFLED {
                let count = spawned[start..start + 7]
                    .iter()
                    .filter(|shape| **shape == tetrimino)
                    .count();
                assert!(count <= 2, "{:?} from spawn {} with seed {}", tetrimino, start, seed);
            }
        }
    }
}

#[test]
fn a_long_game_keeps_the_rules() {
    let commands = [
        TetrisIn::Tick,
        user(UserInput::Left),
        user(UserInput::Right),
        user(UserInput::RotateClockwise),
        user(UserInput::DropSoft),
        user(UserInput::DropHard),
        user(UserInput::Hold),
        TetrisIn::Tick,
        TetrisIn::AddRows(1),
        user(UserInput::Left),
        user(UserInput::RotateClockwise),
        TetrisIn::Tick,
    ];
    let mut engine = TetrisGameSystem::new();
    engine.handle_event(TetrisIn::Start(17));
    let mut state: u64 = 17;
    let mut locks = 0;
    for _ in 0..20_000 {
        // a small generator of its own, so that the run is the same every time
        state = state
            .wrapping_mul(6364136223846793005)
            .wrapping_add(1442695040888963407);
        let command = commands[(state >> 33) as usize % commands.len()];
        let was_running = engine.is_running();
        let update = engine.handle_event(command);
        assert_eq!(update.board_changed, !update.events.is_empty());
        if !was_running {
            assert!(update.events.is_empty());
            engine.handle_event(TetrisIn::Start(state));
            continue;
        }
        if let Some(first) = update.events.first() {
            assert_eq!(*first, valid(command));
        }
        for (index, event) in update.events.iter().enumerate() {
            match event {
                TetrisOut::ValidIn(_) => assert_eq!(index, 0),
                TetrisOut::LockedPiece => {
                    assert_eq!(index, 1);
                    assert!(engine.piece().is_none());
                    locks += 1;
                }
                TetrisOut::RemovedRows(rows) => {
                    assert_eq!(index, 2);
                    assert_eq!(update.events[1], TetrisOut::LockedPiece);
                    assert!(1 <= *rows && *rows <= 4);
                }
                TetrisOut::Lose => {
                    assert_eq!(index, 1);
                    assert_eq!(command, TetrisIn::Tick);
                    assert!(!engine.is_running());
                }
            }
        }
        for y in 0..40 {
            assert!(!engine.board().is_row_full(y), "row {} is full", y);
        }
        if let Some(piece) = engine.piece() {
            assert_eq!(piece.bounding_box.len(), piece.tetrimino.bounding_box().len());
            assert_eq!(piece.filled_pixels().iter().filter(|cell| cell.2).count(), 4);
        }
    }
    assert!(locks > 100);
}
