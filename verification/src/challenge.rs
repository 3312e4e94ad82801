//! The Phase 2 challenge record: a pairwise PvP engagement with an
//! escrowed virtual-token bet and a decline-forcing escalation.

use vstd::prelude::*;
use crate::constants::MAX_OPPONENT_DECLINES;

verus! {

/// The mini-games players can challenge each other to. The outcome of a
/// round is supplied by the participants, not computed here.
#[derive(Clone, Copy, Debug, PartialEq, Eq, Structural)]
pub enum MiniGameType {
    /// Knowledge-based questions.
    CryptoTrivia,
    /// The classic game.
    RockPaperScissors,
    /// Quick decision making.
    SpeedTrading,
    /// Creative competition.
    MemeBattle,
}

/// Challenge lifecycle states.
#[derive(Clone, Copy, Debug, PartialEq, Eq, Structural)]
pub enum ChallengeStatus {
    /// Waiting for the opponent's response.
    Pending,
    /// Opponent accepted; waiting for a ready call.
    Accepted,
    /// A participant readied; the game may start.
    BothReady,
    /// The game is being played.
    InProgress,
    /// Winner determined.
    Completed,
    /// Challenge timed out.
    Expired,
    /// Forced after too many declines; a ready call is still required.
    ForcedAccept,
}

/// One PvP challenge between two members of a game.
#[derive(Clone, Copy, Debug)]
pub struct Challenge {
    /// Identifier, taken from the creation timestamp.
    pub challenge_id: u64,
    /// The game both participants belong to.
    pub game_id: u64,
    /// The player who issued the challenge.
    pub challenger: u64,
    /// The player challenged.
    pub opponent: u64,
    /// Virtual tokens at stake, paid by the loser to the winner.
    pub bet_amount: u64,
    /// The mini-game to be played.
    pub game_type: MiniGameType,
    /// Lifecycle state.
    pub status: ChallengeStatus,
    /// When the challenge was created.
    pub created_at: u64,
    /// When it was accepted, if it was.
    pub accepted_at: Option<u64>,
    /// When the mini-game started, if it did.
    pub game_started_at: Option<u64>,
    /// The recorded winner, once completed.
    pub winner: Option<u64>,
    /// Declines so far; at [`MAX_OPPONENT_DECLINES`] the challenge is
    /// forced to acceptance.
    pub opponent_decline_count: u8,
}

/// Well-formedness of a challenge: the two participants differ, and the
/// decline counter never passes the forcing threshold, which a pending
/// challenge has not reached.
pub open spec fn challenge_wf(c: Challenge) -> bool {
    &&& c.challenger != c.opponent
    &&& c.opponent_decline_count <= MAX_OPPONENT_DECLINES
    &&& (c.status == ChallengeStatus::Pending ==> c.opponent_decline_count
        < MAX_OPPONENT_DECLINES)
}

/// The participant on the other side of the challenge from `who`.
pub open spec fn spec_other_participant(c: Challenge, who: u64) -> u64 {
    if who == c.challenger {
        c.opponent
    } else {
        c.challenger
    }
}

} // verus!
