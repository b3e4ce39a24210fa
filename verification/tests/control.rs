use tetris_for_two::control::{DoublePlayerSystem, MultiplayerSystem, SinglePlayerSystem, State};
use tetris_for_two::events::{TetrisIn, TetrisOut, UserInput};
use tetris_for_two::input::{ActionInput, GameActions, Seat};
use tetris_for_two::known_systems::KnownSystems;

const ACTIONS: [GameActions; 15] = [
    GameActions::Left,
    GameActions::Right,
    GameActions::RotateClockwise,
    GameActions::DropSoft,
    GameActions::DropHard,
    GameActions::Hold,
    GameActions::OneDropHard,
    GameActions::OneHold,
    GameActions::TwoLeft,
    GameActions::TwoRight,
    GameActions::TwoRotateClockwise,
    GameActions::TwoDropSoft,
    GameActions::TwoDropHard,
    GameActions::TwoHold,
    GameActions::Debug,
];

#[test]
fn single_player_frame() {
    let mut system = SinglePlayerSystem::new();
    let frame = system.run(&vec![]);
    assert!(frame.start);
    assert!(!frame.lost);
    let frame = system.run(&vec![TetrisOut::LockedPiece, TetrisOut::Lose]);
    assert!(!frame.start);
    assert!(frame.lost);
}

#[test]
fn four_lines_reach_the_opponent_at_the_next_lock() {
    let mut system = DoublePlayerSystem::new();
    let frame = system.run(
        &vec![TetrisOut::LockedPiece, TetrisOut::RemovedRows(4)],
        &vec![TetrisOut::ValidIn(TetrisIn::Tick)],
    );
    assert!(frame.start);
    assert!(!frame.lost);
    assert!(frame.one_commands.is_empty());
    assert!(frame.two_commands.is_empty());
    assert_eq!(system.pending_lines(), (0, 4));
    // a single line offsets nothing, and the lock before it orders the garbage
    let frame = system.run(
        &vec![],
        &vec![TetrisOut::LockedPiece, TetrisOut::RemovedRows(1)],
    );
    assert!(!frame.start);
    assert_eq!(frame.two_commands, vec![TetrisIn::AddRows(4)]);
    assert!(frame.one_commands.is_empty());
    assert_eq!(system.pending_lines(), (0, 0));
}

#[test]
fn both_players_attack_in_one_frame() {
    let mut system = DoublePlayerSystem::new();
    system.run(&vec![TetrisOut::RemovedRows(3)], &vec![]);
    assert_eq!(system.pending_lines(), (0, 2));
    // two pays off the two lines with a clear of four and sends the other two;
    // one sends one line for a clear of two
    let frame = system.run(
        &vec![TetrisOut::RemovedRows(2)],
        &vec![TetrisOut::RemovedRows(4), TetrisOut::LockedPiece],
    );
    assert!(frame.two_commands.is_empty());
    assert_eq!(system.pending_lines(), (2, 1));
    let frame = system.run(&vec![TetrisOut::LockedPiece], &vec![TetrisOut::Lose]);
    assert_eq!(frame.one_commands, vec![TetrisIn::AddRows(2)]);
    assert!(frame.lost);
}

#[test]
fn client_starts_at_once() {
    let mut system = MultiplayerSystem::new(State::ClientWaiting);
    let frame = system.run(0, &vec![], &vec![]);
    assert_eq!(frame.starts, 1);
    assert!(!frame.process_input);
    let frame = system.run(0, &vec![], &vec![]);
    assert_eq!(frame.starts, 0);
    assert!(frame.process_input);
}

#[test]
fn server_waits_for_a_peer() {
    let mut system = MultiplayerSystem::new(State::ServerWaiting);
    for _ in 0..3 {
        let frame = system.run(0, &vec![], &vec![]);
        assert_eq!(frame.starts, 0);
        assert!(!frame.process_input);
    }
    let frame = system.run(1, &vec![], &vec![]);
    assert_eq!(frame.starts, 1);
    assert!(!frame.process_input);
    let frame = system.run(1, &vec![], &vec![]);
    assert_eq!(frame.starts, 0);
    assert!(frame.process_input);
}

#[test]
fn network_game_charges_the_peers_clears() {
    let mut system = MultiplayerSystem::new(State::Started);
    let frame = system.run(
        0,
        &vec![
            TetrisOut::ValidIn(TetrisIn::User(UserInput::DropHard)),
            TetrisOut::LockedPiece,
        ],
        &vec![TetrisOut::RemovedRows(4), TetrisOut::RemovedRows(2)],
    );
    assert_eq!(frame.forwarded, vec![TetrisIn::User(UserInput::DropHard)]);
    assert!(frame.commands.is_empty());
    assert!(!frame.lost);
    assert_eq!(system.pending_lines(), 5);
    let frame = system.run(
        0,
        &vec![TetrisOut::RemovedRows(3), TetrisOut::LockedPiece],
        &vec![TetrisOut::Lose],
    );
    assert_eq!(frame.commands, vec![TetrisIn::AddRows(3)]);
    assert!(frame.lost);
    assert_eq!(system.pending_lines(), 0);
}

#[test]
fn actions_belong_to_players() {
    for action in ACTIONS {
        let index = ACTIONS.iter().position(|other| *other == action).unwrap();
        assert_eq!(action.single(), index < 6);
        assert_eq!(action.one(), index < 4 || index == 6 || index == 7);
        assert_eq!(action.two(), (8..14).contains(&index));
    }
}

#[test]
fn actions_map_to_inputs() {
    let expected = [
        UserInput::Left,
        UserInput::Right,
        UserInput::RotateClockwise,
        UserInput::DropSoft,
        UserInput::DropHard,
        UserInput::Hold,
        UserInput::DropHard,
        UserInput::Hold,
        UserInput::Left,
        UserInput::Right,
        UserInput::RotateClockwise,
        UserInput::DropSoft,
        UserInput::DropHard,
        UserInput::Hold,
    ];
    for (action, input) in ACTIONS.iter().zip(expected.iter()) {
        assert_eq!(action.input(), ActionInput::Input(*input));
    }
    assert_eq!(GameActions::Debug.input(), ActionInput::Unmapped);
}

#[test]
fn actions_are_routed_to_seats() {
    assert_eq!(
        GameActions::DropHard.route(false),
        Some((Seat::One, UserInput::DropHard))
    );
    assert_eq!(GameActions::DropHard.route(true), None);
    assert_eq!(GameActions::OneDropHard.route(false), None);
    assert_eq!(
        GameActions::OneDropHard.route(true),
        Some((Seat::One, UserInput::DropHard))
    );
    assert_eq!(
        GameActions::Left.route(true),
        Some((Seat::One, UserInput::Left))
    );
    assert_eq!(
        GameActions::TwoLeft.route(true),
        Some((Seat::Two, UserInput::Left))
    );
    assert_eq!(GameActions::TwoLeft.route(false), None);
    assert_eq!(GameActions::Debug.route(false), None);
    assert_eq!(GameActions::Debug.route(true), None);
}

#[test]
fn systems_have_their_names() {
    assert_eq!(KnownSystems::ControlSystem.name(), "control_system");
    assert_eq!(KnownSystems::Debug.name(), "debug_system");
    assert_eq!(KnownSystems::InputSystem.name(), "my_input_system");
    assert_eq!(KnownSystems::NetworkSystem.name(), "network_system");
    assert_eq!(KnownSystems::SpriteLoader.name(), "sprite_loader_system");
    assert_eq!(KnownSystems::FlyMovement.name(), "fly_movement");
    assert_eq!(KnownSystems::FPSCounter.name(), "fps_counter_system");
    assert_eq!(KnownSystems::HideHierarchy.name(), "hide_hierarchy_system");
    assert_eq!(KnownSystems::Input.name(), "input_system");
    assert_eq!(KnownSystems::ParentHierarchy.name(), "parent_hierarchy_system");
    assert_eq!(
        KnownSystems::SpriteSheetProcessor.name(),
        "sprite_sheet_processor"
    );
    assert_eq!(KnownSystems::TextureProcessor.name(), "texture_processor");
    assert_eq!(KnownSystems::TransformSystem.name(), "transform_system");
}
