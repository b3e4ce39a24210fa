//! One frame of a game for one, for two at one keyboard, or for two over a
//! network: what to tell the engines, given what they reported.

use vstd::prelude::*;
use crate::attack::{attack_total, LocalAttackPlayer, SinglePlayer, Tally};
use crate::events::{TetrisIn, TetrisOut};

verus! {

/// A game for one player.
pub struct SinglePlayerSystem {
    started: bool,
    player: SinglePlayer,
}

/// What a frame of a game for one asks for.
pub struct SingleFrame {
    /// The engine is to be started: this is the first frame.
    pub start: bool,
    /// The player lost.
    pub lost: bool,
}

impl SinglePlayerSystem {
    pub closed spec fn started(&self) -> bool {
        self.started
    }

    pub fn new() -> (system: SinglePlayerSystem)
        ensures
            !system.started(),
    {
        SinglePlayerSystem { started: false, player: SinglePlayer::new() }
    }

    /// One frame: the first one starts the game; every one reads the events
    /// of the engine.
    pub fn run(&mut self, events: &Vec<TetrisOut>) -> (frame: SingleFrame)
        ensures
            final(self).started(),
            frame.start == !old(self).started(),
            frame.lost == events@.contains(TetrisOut::Lose),
    {
        let start = !self.started;
        self.started = true;
        let lost = self.player.handle_events(events);
        SingleFrame { start, lost }
    }
}

/// A game for two players at one keyboard.
pub struct DoublePlayerSystem {
    started: bool,
    one: LocalAttackPlayer,
    two: LocalAttackPlayer,
}

/// What a frame of a game for two at one keyboard asks for.
pub struct DoubleFrame {
    /// Both engines are to be started: this is the first frame.
    pub start: bool,
    /// Commands for the engine of player one, in order.
    pub one_commands: Vec<TetrisIn>,
    /// Commands for the engine of player two, in order.
    pub two_commands: Vec<TetrisIn>,
    /// One of the two lost.
    pub lost: bool,
}

impl DoublePlayerSystem {
    pub closed spec fn started(&self) -> bool {
        self.started
    }

    /// The lines owed to player one.
    pub closed spec fn one_pending(&self) -> nat {
        self.one.pending()
    }

    /// The lines owed to player two.
    pub closed spec fn two_pending(&self) -> nat {
        self.two.pending()
    }

    pub fn new() -> (system: DoublePlayerSystem)
        ensures
            !system.started(),
            system.one_pending() == 0,
            system.two_pending() == 0,
    {
        DoublePlayerSystem {
            started: false,
            one: LocalAttackPlayer::new(),
            two: LocalAttackPlayer::new(),
        }
    }

    /// The lines owed to player one and to player two.
    pub fn pending_lines(&self) -> (lines: (usize, usize))
        ensures
            lines.0 == self.one_pending(),
            lines.1 == self.two_pending(),
    {
        (self.one.pending_lines(), self.two.pending_lines())
    }

    /// One frame: each player's books are brought up to date with the events
    /// of the player's own engine, and then each is charged with the lines
    /// that the other one sends.
    pub fn run(&mut self, one_events: &Vec<TetrisOut>, two_events: &Vec<TetrisOut>) -> (frame:
        DoubleFrame)
        requires
            old(self).one_pending() + attack_total(two_events@) <= usize::MAX,
            old(self).two_pending() + attack_total(one_events@) <= usize::MAX,
        ensures
            final(self).started(),
            frame.start == !old(self).started(),
            ({
                let one = Tally::start(old(self).one_pending()).after_all(one_events@);
                let two = Tally::start(old(self).two_pending()).after_all(two_events@);
                &&& final(self).one_pending() == one.pending + two.sent
                &&& final(self).two_pending() == two.pending + one.sent
                &&& frame.one_commands@ == one.commands
                &&& frame.two_commands@ == two.commands
                &&& frame.lost == (one.lost || two.lost)
            }),
    {
        let start = !self.started;
        self.started = true;
        // read the output and see if anything interesting happened in our game
        let one = self.one.handle_events(one_events);
        let two = self.two.handle_events(two_events);
        // update our lines from our opponents
        self.one.handle_opponent_lines(two.lines);
        self.two.handle_opponent_lines(one.lines);
        DoubleFrame {
            start,
            one_commands: one.commands,
            two_commands: two.commands,
            lost: one.lost || two.lost,
        }
    }
}

/// Where a game over a network stands.
#[derive(Copy, Clone, Debug, PartialEq, Eq, Structural)]
pub enum State {
    Started,
    ClientWaiting,
    ServerWaiting,
}

impl State {
    /// The state after a frame in which `connects` peers connected. A client
    /// starts at once; a server starts when a peer connects.
    pub open spec fn spec_next(self, connects: nat) -> State {
        match self {
            State::ServerWaiting => if connects > 0 {
                State::Started
            } else {
                State::ServerWaiting
            },
            _ => State::Started,
        }
    }

    /// How often the own engine is started in such a frame: once by a
    /// waiting client, once for each peer that connects to a waiting server.
    pub open spec fn spec_starts(self, connects: nat) -> nat {
        match self {
            State::Started => 0,
            State::ClientWaiting => 1,
            State::ServerWaiting => connects,
        }
    }
}

/// A game for two players over a network, seen from one side.
pub struct MultiplayerSystem {
    state: State,
    local_player: LocalAttackPlayer,
}

/// What a frame of a game over a network asks for.
pub struct MultiplayerFrame {
    /// How often the own engine is to be started.
    pub starts: usize,
    /// The frame began in a started game: input and the clock are to be
    /// passed on to the engine.
    pub process_input: bool,
    /// Commands for the own engine, in order.
    pub commands: Vec<TetrisIn>,
    /// The commands that the own engine accepted, for the peer.
    pub forwarded: Vec<TetrisIn>,
    /// One of the two lost.
    pub lost: bool,
}

impl MultiplayerSystem {
    pub closed spec fn state(&self) -> State {
        self.state
    }

    /// The lines owed to the local player.
    pub closed spec fn pending(&self) -> nat {
        self.local_player.pending()
    }

    /// A game that waits in `state`, with nothing owed.
    pub fn new(state: State) -> (system: MultiplayerSystem)
        ensures
            system.state() == state,
            system.pending() == 0,
    {
        MultiplayerSystem { state, local_player: LocalAttackPlayer::new() }
    }

    pub fn pending_lines(&self) -> (lines: usize)
        ensures
            lines == self.pending(),
    {
        self.local_player.pending_lines()
    }

    /// One frame, in which `connects` peers connected: the state moves on,
    /// the local player's books are brought up to date with the events of
    /// the own engine, and every clear that the peer's engine reports is
    /// charged to the local player.
    pub fn run(
        &mut self,
        connects: usize,
        own_events: &Vec<TetrisOut>,
        opponent_events: &Vec<TetrisOut>,
    ) -> (frame: MultiplayerFrame)
        requires
            attack_total(own_events@) <= usize::MAX,
            old(self).pending() + attack_total(opponent_events@) <= usize::MAX,
        ensures
            final(self).state() == old(self).state().spec_next(connects as nat),
            frame.starts == old(self).state().spec_starts(connects as nat),
            frame.process_input == (old(self).state() == State::Started),
            ({
                let own = Tally::start(old(self).pending()).after_all(own_events@);
                &&& final(self).pending() == own.pending + attack_total(opponent_events@)
                &&& frame.commands@ == own.commands
                &&& frame.forwarded@ == own.forwarded
                &&& frame.lost == (own.lost || opponent_events@.contains(TetrisOut::Lose))
            }),
    {
        let mut starts: usize = 0;
        let mut process_input = false;
        match self.state {
            State::Started => {
                process_input = true;
            },
            State::ClientWaiting => {
                // we're a client so we can kick off our start event immediately
                self.state = State::Started;
                starts = 1;
            },
            State::ServerWaiting => {
                if connects > 0 {
                    self.state = State::Started;
                    starts = connects;
                }
            },
        }
        let own = self.local_player.handle_events(own_events);
        // read the opponent output and see if anything interesting happened in our game
        let remote_lost = self.local_player.handle_opponent_events(opponent_events);
        MultiplayerFrame {
            starts,
            process_input,
            commands: own.commands,
            forwarded: own.forwarded,
            lost: own.lost || remote_lost,
        }
    }
}

} // verus!
