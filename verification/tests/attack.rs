use tetris_for_two::attack::{sent_pieces, LocalAttackPlayer, SinglePlayer};
use tetris_for_two::events::{TetrisIn, TetrisOut, UserInput};

#[test]
fn sent_pieces_discounts_small_clears() {
    assert_eq!(sent_pieces(0), 0);
    assert_eq!(sent_pieces(1), 0);
    assert_eq!(sent_pieces(2), 1);
    assert_eq!(sent_pieces(3), 2);
    assert_eq!(sent_pieces(4), 4);
    assert_eq!(sent_pieces(5), 5);
}

#[test]
fn four_lines_without_debt_are_sent_in_full() {
    let mut a = LocalAttackPlayer::new();
    let report = a.handle_events(&vec![TetrisOut::LockedPiece, TetrisOut::RemovedRows(4)]);
    assert_eq!(report.lines, 4);
    assert!(!report.lost);
    assert!(report.commands.is_empty());
    assert_eq!(a.pending_lines(), 0);
}

#[test]
fn single_line_does_not_offset_and_lock_applies_debt() {
    let mut b = LocalAttackPlayer::new();
    b.handle_opponent_lines(2);
    let report = b.handle_events(&vec![TetrisOut::RemovedRows(1)]);
    assert_eq!(report.lines, 0);
    assert_eq!(b.pending_lines(), 2);
    assert!(report.commands.is_empty());
    let report = b.handle_events(&vec![TetrisOut::LockedPiece]);
    assert_eq!(report.commands, vec![TetrisIn::AddRows(2)]);
    assert_eq!(b.pending_lines(), 0);
    let report = b.handle_events(&vec![TetrisOut::LockedPiece]);
    assert!(report.commands.is_empty());
}

#[test]
fn clear_offsets_debt_before_sending() {
    let mut player = LocalAttackPlayer::new();
    player.handle_opponent_lines(3);
    let report = player.handle_events(&vec![TetrisOut::RemovedRows(3)]);
    assert_eq!(report.lines, 0);
    assert_eq!(player.pending_lines(), 1);
    let report = player.handle_events(&vec![TetrisOut::RemovedRows(4)]);
    assert_eq!(report.lines, 3);
    assert_eq!(player.pending_lines(), 0);
}

#[test]
fn accepted_commands_are_forwarded_in_order() {
    let mut player = LocalAttackPlayer::new();
    let report = player.handle_events(&vec![
        TetrisOut::ValidIn(TetrisIn::Tick),
        TetrisOut::ValidIn(TetrisIn::User(UserInput::Left)),
        TetrisOut::LockedPiece,
    ]);
    assert_eq!(
        report.forwarded,
        vec![TetrisIn::Tick, TetrisIn::User(UserInput::Left)]
    );
}

#[test]
fn loss_ends_the_run_and_sends_nothing() {
    let mut player = LocalAttackPlayer::new();
    player.handle_opponent_lines(2);
    let report = player.handle_events(&vec![
        TetrisOut::RemovedRows(4),
        TetrisOut::Lose,
        TetrisOut::RemovedRows(4),
        TetrisOut::LockedPiece,
    ]);
    assert!(report.lost);
    assert_eq!(report.lines, 0);
    assert!(report.commands.is_empty());
    assert_eq!(player.pending_lines(), 0);
}

#[test]
fn opponent_clears_are_charged() {
    let mut player = LocalAttackPlayer::new();
    let lost = player.handle_opponent_events(&vec![
        TetrisOut::RemovedRows(2),
        TetrisOut::ValidIn(TetrisIn::Tick),
        TetrisOut::RemovedRows(4),
    ]);
    assert!(!lost);
    assert_eq!(player.pending_lines(), 5);
    let lost = player.handle_opponent_events(&vec![TetrisOut::Lose, TetrisOut::RemovedRows(1)]);
    assert!(lost);
    assert_eq!(player.pending_lines(), 5);
}

#[test]
fn total_attack_adds_up_and_tells_overflow() {
    assert_eq!(
        LocalAttackPlayer::total_attack(&vec![
            TetrisOut::RemovedRows(4),
            TetrisOut::LockedPiece,
            TetrisOut::RemovedRows(2),
            TetrisOut::RemovedRows(1),
            TetrisOut::Lose,
            TetrisOut::RemovedRows(3),
        ]),
        Some(7)
    );
    assert_eq!(
        LocalAttackPlayer::total_attack(&vec![
            TetrisOut::RemovedRows(4),
            TetrisOut::RemovedRows(usize::MAX - 4),
        ]),
        Some(usize::MAX)
    );
    assert_eq!(
        LocalAttackPlayer::total_attack(&vec![
            TetrisOut::RemovedRows(4),
            TetrisOut::RemovedRows(usize::MAX - 3),
        ]),
        None
    );
    assert_eq!(LocalAttackPlayer::total_attack(&vec![]), Some(0));
}

#[test]
fn attack_level_is_three() {
    assert_eq!(LocalAttackPlayer::new().level(), 3);
}

#[test]
fn single_player_sees_loss() {
    let mut player = SinglePlayer::new();
    assert_eq!(player.level(), 0);
    assert!(!player.handle_events(&vec![TetrisOut::LockedPiece, TetrisOut::RemovedRows(2)]));
    assert!(player.handle_events(&vec![TetrisOut::ValidIn(TetrisIn::Tick), TetrisOut::Lose]));
}
