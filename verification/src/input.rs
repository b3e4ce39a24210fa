//! The actions that keys are bound to, and which player's input each one is.

use vstd::prelude::*;
use crate::events::UserInput;

verus! {

#[derive(Copy, Clone, Debug, Hash, PartialEq, Eq, Structural)]
pub enum GameActions {
    Left,
    Right,
    RotateClockwise,
    DropSoft,
    DropHard,
    Hold,
    OneDropHard,
    OneHold,
    TwoLeft,
    TwoRight,
    TwoRotateClockwise,
    TwoDropSoft,
    TwoDropHard,
    TwoHold,
    Debug,
}

/// The marker that names the axes and actions of this game's key bindings.
#[derive(Debug, PartialEq, Eq)]
pub struct GameInput;

/// What an action means to an engine.
#[derive(Copy, Clone, Debug, PartialEq, Eq, Structural)]
pub enum ActionInput {
    Input(UserInput),
    Unmapped,
}

/// One of the two players at the keyboard.
#[derive(Copy, Clone, Debug, PartialEq, Eq, Structural)]
pub enum Seat {
    One,
    Two,
}

impl GameActions {
    /// The action belongs to the only player of a game for one.
    pub open spec fn spec_single(self) -> bool {
        self is Left || self is Right || self is RotateClockwise || self is DropSoft
            || self is DropHard || self is Hold
    }

    /// The action belongs to the first player of a game for two.
    pub open spec fn spec_one(self) -> bool {
        self is Left || self is Right || self is RotateClockwise || self is DropSoft
            || self is OneDropHard || self is OneHold
    }

    /// The action belongs to the second player of a game for two.
    pub open spec fn spec_two(self) -> bool {
        self is TwoLeft || self is TwoRight || self is TwoRotateClockwise || self is TwoDropSoft
            || self is TwoDropHard || self is TwoHold
    }

    /// What the action means to an engine, whoever's it is.
    pub open spec fn spec_input(self) -> ActionInput {
        match self {
            GameActions::Left | GameActions::TwoLeft => ActionInput::Input(UserInput::Left),
            GameActions::Right | GameActions::TwoRight => ActionInput::Input(UserInput::Right),
            GameActions::RotateClockwise | GameActions::TwoRotateClockwise => ActionInput::Input(
                UserInput::RotateClockwise,
            ),
            GameActions::DropSoft | GameActions::TwoDropSoft => ActionInput::Input(
                UserInput::DropSoft,
            ),
            GameActions::DropHard | GameActions::OneDropHard | GameActions::TwoDropHard =>
                ActionInput::Input(UserInput::DropHard),
            GameActions::Hold | GameActions::OneHold | GameActions::TwoHold => ActionInput::Input(
                UserInput::Hold,
            ),
            GameActions::Debug => ActionInput::Unmapped,
        }
    }

    /// Whose input the action is and what it means, in a game with or
    /// without a second player; nothing for an action that is nobody's.
    pub open spec fn spec_route(self, two_players: bool) -> Option<(Seat, UserInput)> {
        match self.spec_input() {
            ActionInput::Input(input) => if !two_players {
                if self.spec_single() {
                    Some((Seat::One, input))
                } else {
                    None
                }
            } else if self.spec_one() {
                Some((Seat::One, input))
            } else if self.spec_two() {
                Some((Seat::Two, input))
            } else {
                None
            },
            ActionInput::Unmapped => None,
        }
    }

    pub fn single(&self) -> (is_single: bool)
        ensures
            is_single == self.spec_single(),
    {
        match self {
            GameActions::Left
            | GameActions::Right
            | GameActions::RotateClockwise
            | GameActions::DropSoft
            | GameActions::DropHard
            | GameActions::Hold => true,
            _ => false,
        }
    }

    pub fn one(&self) -> (is_one: bool)
        ensures
            is_one == self.spec_one(),
    {
        match self {
            GameActions::Left
            | GameActions::Right
            | GameActions::RotateClockwise
            | GameActions::DropSoft
            | GameActions::OneDropHard
            | GameActions::OneHold => true,
            _ => false,
        }
    }

    pub fn two(&self) -> (is_two: bool)
        ensures
            is_two == self.spec_two(),
    {
        match self {
            GameActions::TwoLeft
            | GameActions::TwoRight
            | GameActions::TwoRotateClockwise
            | GameActions::TwoDropSoft
            | GameActions::TwoDropHard
            | GameActions::TwoHold => true,
            _ => false,
        }
    }

    /// What the action means to an engine.
    pub fn input(&self) -> (meaning: ActionInput)
        ensures
            meaning == self.spec_input(),
    {
        match self {
            GameActions::Left | GameActions::TwoLeft => ActionInput::Input(UserInput::Left),
            GameActions::Right | GameActions::TwoRight => ActionInput::Input(UserInput::Right),
            GameActions::RotateClockwise | GameActions::TwoRotateClockwise => {
                ActionInput::Input(UserInput::RotateClockwise)
            },
            GameActions::DropSoft | GameActions::TwoDropSoft => ActionInput::Input(
                UserInput::DropSoft,
            ),
            GameActions::DropHard | GameActions::OneDropHard | GameActions::TwoDropHard => {
                ActionInput::Input(UserInput::DropHard)
            },
            GameActions::Hold | GameActions::OneHold | GameActions::TwoHold => {
                ActionInput::Input(UserInput::Hold)
            },
            GameActions::Debug => ActionInput::Unmapped,
        }
    }

    /// Whose input the action is and what it means, in a game with or
    /// without a second player.
    pub fn route(&self, two_players: bool) -> (routed: Option<(Seat, UserInput)>)
        ensures
            routed == self.spec_route(two_players),
    {
        match self.input() {
            ActionInput::Input(input) => {
                if !two_players {
                    if self.single() {
                        Some((Seat::One, input))
                    } else {
                        None
                    }
                } else if self.one() {
                    Some((Seat::One, input))
                } else if self.two() {
                    Some((Seat::Two, input))
                } else {
                    None
                }
            },
            ActionInput::Unmapped => None,
        }
    }
}

} // verus!
