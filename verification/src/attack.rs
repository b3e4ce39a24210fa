//! The lines that players send each other: what a clear is worth, what a
//! player owes, and when the debt becomes garbage on the player's own board.

use vstd::prelude::*;
use crate::events::{TetrisIn, TetrisOut};

verus! {

/// The level that a game for two is played at.
pub const ATTACK_LEVEL: usize = 3;

/// The lines that a clear of `removed_lines` rows is worth: all of them for
/// four rows or more, one less for fewer, and none for none.
pub open spec fn attack(removed_lines: nat) -> nat {
    if removed_lines >= 4 {
        removed_lines
    } else if removed_lines == 0 {
        0
    } else {
        (removed_lines - 1) as nat
    }
}

/// The lines that a clear of `removed_lines` rows is worth.
pub fn sent_pieces(removed_lines: usize) -> (lines: usize)
    ensures
        lines == attack(removed_lines as nat),
{
    if removed_lines == 0 {
        0
    } else if removed_lines < 4 {
        removed_lines - 1
    } else {
        removed_lines
    }
}

/// The books of one player over a run of events of the player's own engine.
pub struct Tally {
    /// Lines owed to the player, not yet on the board.
    pub pending: nat,
    /// Lines to send to the opponent.
    pub sent: nat,
    /// The player's engine reported a loss.
    pub lost: bool,
    /// Commands for the player's own engine, in order.
    pub commands: Seq<TetrisIn>,
    /// The commands that the engine accepted, in order.
    pub forwarded: Seq<TetrisIn>,
}

impl Tally {
    /// The books before any event, with `pending` lines owed.
    pub open spec fn start(pending: nat) -> Tally {
        Tally { pending, sent: 0, lost: false, commands: Seq::empty(), forwarded: Seq::empty() }
    }

    /// The books after one more event. An accepted command is passed on. A
    /// clear pays off what is owed first, and what is left of it is sent. A
    /// lock turns what is owed into garbage for the own engine. A loss ends
    /// the books: nothing is sent, and no later event counts.
    pub open spec fn after(self, event: TetrisOut) -> Tally {
        if self.lost {
            self
        } else {
            match event {
                TetrisOut::ValidIn(command) => Tally {
                    forwarded: self.forwarded.push(command),
                    ..self
                },
                TetrisOut::RemovedRows(rows) => {
                    let lines = attack(rows as nat);
                    if lines > self.pending {
                        Tally {
                            pending: 0,
                            sent: self.sent + (lines - self.pending) as nat,
                            ..self
                        }
                    } else {
                        Tally { pending: (self.pending - lines) as nat, ..self }
                    }
                },
                TetrisOut::LockedPiece => if self.pending > 0 {
                    Tally {
                        pending: 0,
                        commands: self.commands.push(TetrisIn::AddRows(self.pending as usize)),
                        ..self
                    }
                } else {
                    self
                },
                TetrisOut::Lose => Tally { sent: 0, lost: true, ..self },
            }
        }
    }

    /// The books after a run of events.
    pub open spec fn after_all(self, events: Seq<TetrisOut>) -> Tally
        decreases events.len(),
    {
        if events.len() == 0 {
            self
        } else {
            self.after_all(events.drop_last()).after(events.last())
        }
    }
}

/// The lines that the clears among `events` are worth together.
pub open spec fn attack_total(events: Seq<TetrisOut>) -> nat
    decreases events.len(),
{
    if events.len() == 0 {
        0
    } else {
        attack_total(events.drop_last()) + match events.last() {
            TetrisOut::RemovedRows(rows) => attack(rows as nat),
            _ => 0,
        }
    }
}

/// The clears of a part of a run are worth no more than those of the run.
pub proof fn lemma_attack_total_prefix(events: Seq<TetrisOut>, count: int)
    requires
        0 <= count <= events.len(),
    ensures
        attack_total(events.take(count)) <= attack_total(events),
    decreases events.len() - count,
{
    if count == events.len() {
        assert(events.take(count) =~= events);
    } else {
        lemma_attack_total_prefix(events, count + 1);
        assert(events.take(count + 1).drop_last() =~= events.take(count));
    }
}

/// What a player's coordinator hands back after a run of events.
pub struct AttackReport {
    /// Lines to send to the opponent.
    pub lines: usize,
    /// The player lost.
    pub lost: bool,
    /// Commands for the player's own engine, in order.
    pub commands: Vec<TetrisIn>,
    /// The commands that the engine accepted, in order.
    pub forwarded: Vec<TetrisIn>,
}

/// A player of a game for two, with the lines owed to that player.
pub struct LocalAttackPlayer {
    pending_lines: usize,
}

impl LocalAttackPlayer {
    /// The lines owed to the player.
    pub closed spec fn pending(&self) -> nat {
        self.pending_lines as nat
    }

    pub fn new() -> (player: LocalAttackPlayer)
        ensures
            player.pending() == 0,
    {
        LocalAttackPlayer { pending_lines: 0 }
    }

    pub fn pending_lines(&self) -> (lines: usize)
        ensures
            lines == self.pending(),
    {
        self.pending_lines
    }

    pub fn level(&self) -> (level: usize)
        ensures
            level == ATTACK_LEVEL,
    {
        ATTACK_LEVEL
    }

    /// The lines that the clears among `events` are worth together, or
    /// nothing when the machine's integers cannot hold their number.
    pub fn total_attack(events: &Vec<TetrisOut>) -> (total: Option<usize>)
        ensures
            match total {
                Some(lines) => lines == attack_total(events@),
                None => attack_total(events@) > usize::MAX,
            },
    {
        let mut total: usize = 0;
        let mut i: usize = 0;
        while i < events.len()
            invariant
                i <= events@.len(),
                total == attack_total(events@.take(i as int)),
            decreases events@.len() - i,
        {
            proof {
                assert(events@.take(i + 1).drop_last() =~= events@.take(i as int));
                lemma_attack_total_prefix(events@, i + 1);
            }
            if let TetrisOut::RemovedRows(rows) = events[i] {
                match total.checked_add(sent_pieces(rows)) {
                    Some(sum) => {
                        total = sum;
                    },
                    None => {
                        return None;
                    },
                }
            }
            i += 1;
        }
        assert(events@.take(i as int) =~= events@);
        Some(total)
    }

    /// Goes through the events of the player's own engine, in order, and
    /// stops at a loss.
    pub fn handle_events(&mut self, events: &Vec<TetrisOut>) -> (report: AttackReport)
        requires
            attack_total(events@) <= usize::MAX,
        ensures
            ({
                let tally = Tally::start(old(self).pending()).after_all(events@);
                &&& final(self).pending() == tally.pending
                &&& report.lines == tally.sent
                &&& report.lost == tally.lost
                &&& report.commands@ == tally.commands
                &&& report.forwarded@ == tally.forwarded
            }),
            final(self).pending() <= old(self).pending(),
            report.lines <= attack_total(events@),
    {
        let mut to_send_pieces: usize = 0;
        let mut lost = false;
        let mut commands: Vec<TetrisIn> = Vec::new();
        let mut forwarded: Vec<TetrisIn> = Vec::new();
        let ghost start = Tally::start(self.pending());
        let mut i: usize = 0;
        while i < events.len()
            invariant
                i <= events@.len(),
                attack_total(events@) <= usize::MAX,
                ({
                    let tally = start.after_all(events@.take(i as int));
                    &&& self.pending() == tally.pending
                    &&& to_send_pieces == tally.sent
                    &&& lost == tally.lost
                    &&& commands@ == tally.commands
                    &&& forwarded@ == tally.forwarded
                }),
                to_send_pieces <= attack_total(events@.take(i as int)),
                self.pending() <= old(self).pending(),
            decreases events@.len() - i,
        {
            proof {
                assert(events@.take(i + 1).drop_last() =~= events@.take(i as int));
                lemma_attack_total_prefix(events@, i + 1);
            }
            if !lost {
                match events[i] {
                    TetrisOut::ValidIn(in_event) => {
                        forwarded.push(in_event);
                    },
                    TetrisOut::RemovedRows(rows) => {
                        let mut lines = sent_pieces(rows);
                        if lines > self.pending_lines {
                            lines -= self.pending_lines;
                            self.pending_lines = 0;
                        } else {
                            self.pending_lines -= lines;
                            lines = 0;
                        }
                        if lines > 0 {
                            to_send_pieces += lines;
                        }
                    },
                    TetrisOut::LockedPiece => {
                        // we locked a piece so we can send all of our pending pieces
                        if self.pending_lines > 0 {
                            commands.push(TetrisIn::AddRows(self.pending_lines));
                            self.pending_lines = 0;
                        }
                    },
                    TetrisOut::Lose => {
                        to_send_pieces = 0;
                        lost = true;
                    },
                }
            }
            i += 1;
        }
        assert(events@.take(i as int) =~= events@);
        AttackReport { lines: to_send_pieces, lost, commands, forwarded }
    }

    /// Adds lines that the opponent sent to what the player owes.
    pub fn handle_opponent_lines(&mut self, lines: usize)
        requires
            old(self).pending() + lines <= usize::MAX,
        ensures
            final(self).pending() == old(self).pending() + lines,
    {
        self.pending_lines += lines;
    }

    /// Goes through the events of the opponent's engine: every clear adds
    /// what it is worth to what the player owes. Tells whether the opponent
    /// lost.
    pub fn handle_opponent_events(&mut self, events: &Vec<TetrisOut>) -> (remote_lost: bool)
        requires
            old(self).pending() + attack_total(events@) <= usize::MAX,
        ensures
            final(self).pending() == old(self).pending() + attack_total(events@),
            remote_lost == events@.contains(TetrisOut::Lose),
    {
        let mut remote_lost = false;
        let mut i: usize = 0;
        while i < events.len()
            invariant
                i <= events@.len(),
                old(self).pending() + attack_total(events@) <= usize::MAX,
                self.pending() == old(self).pending() + attack_total(events@.take(i as int)),
                remote_lost == events@.take(i as int).contains(TetrisOut::Lose),
            decreases events@.len() - i,
        {
            proof {
                assert(events@.take(i + 1).drop_last() =~= events@.take(i as int));
                lemma_attack_total_prefix(events@, i + 1);
                lemma_contains_step(events@, i as int, TetrisOut::Lose);
            }
            match events[i] {
                TetrisOut::RemovedRows(rows) => {
                    self.handle_opponent_lines(sent_pieces(rows));
                },
                TetrisOut::Lose => {
                    remote_lost = true;
                },
                _ => (),
            }
            i += 1;
        }
        assert(events@.take(i as int) =~= events@);
        remote_lost
    }
}

/// An item is among the first `count + 1` of a run when it is among the
/// first `count` or is the next one.
pub proof fn lemma_contains_step(events: Seq<TetrisOut>, count: int, item: TetrisOut)
    requires
        0 <= count < events.len(),
    ensures
        events.take(count + 1).contains(item) == (events.take(count).contains(item)
            || events[count] == item),
{
    let longer = events.take(count + 1);
    let shorter = events.take(count);
    if shorter.contains(item) {
        let k = choose|k: int| 0 <= k < shorter.len() && shorter[k] == item;
        assert(longer[k] == item);
    }
    if events[count] == item {
        assert(longer[count] == item);
    }
    if longer.contains(item) {
        let k = choose|k: int| 0 <= k < longer.len() && longer[k] == item;
        if k < count {
            assert(shorter[k] == item);
        }
    }
}

/// A player of a game for one.
pub struct SinglePlayer {
    level: usize,
}

impl SinglePlayer {
    pub fn new() -> (player: SinglePlayer)
        ensures
            player.spec_level() == 0,
    {
        SinglePlayer { level: 0 }
    }

    pub closed spec fn spec_level(&self) -> nat {
        self.level as nat
    }

    pub fn level(&self) -> (level: usize)
        ensures
            level == self.spec_level(),
    {
        self.level
    }

    /// Goes through the events of the player's engine and tells whether the
    /// player lost.
    pub fn handle_events(&mut self, events: &Vec<TetrisOut>) -> (lost: bool)
        ensures
            lost == events@.contains(TetrisOut::Lose),
            final(self).spec_level() == old(self).spec_level(),
    {
        let mut i: usize = 0;
        while i < events.len()
            invariant
                i <= events@.len(),
                !events@.take(i as int).contains(TetrisOut::Lose),
            decreases events@.len() - i,
        {
            proof {
                lemma_contains_step(events@, i as int, TetrisOut::Lose);
            }
            match events[i] {
                TetrisOut::RemovedRows(_rows) => {},
                TetrisOut::Lose => {
                    assert(events@[i as int] == TetrisOut::Lose);
                    return true;
                },
                _ => (),
            }
            i += 1;
        }
        assert(events@.take(i as int) =~= events@);
        false
    }
}

} // verus!
