//! Commands that go into an engine and events that come out of it.

use vstd::prelude::*;

verus! {

/// What travels between two peers.
#[derive(Clone, Copy, Debug, Hash, PartialEq, Eq, Structural)]
pub enum NetworkEvent {
    GameRx(TetrisIn),
}

/// A command for the engine.
#[derive(Clone, Copy, Debug, Hash, PartialEq, Eq, Structural)]
pub enum TetrisIn {
    Start(u64),
    Tick,
    AddRows(usize),
    User(UserInput),
}

/// A player's action on the falling piece.
#[derive(Copy, Clone, Debug, Hash, PartialEq, Eq, Structural)]
pub enum UserInput {
    Left,
    Right,
    RotateClockwise,
    DropSoft,
    DropHard,
    Hold,
}

/// What the engine reports.
#[derive(Clone, Copy, Debug, Hash, PartialEq, Eq, Structural)]
pub enum TetrisOut {
    /// A command that the engine accepted.
    ValidIn(TetrisIn),
    LockedPiece,
    RemovedRows(usize),
    Lose,
}

fn probe(a: TetrisOut, b: TetrisOut) -> (r: bool)
    ensures r == (a == b),
{
    a == b
}

} // verus!
