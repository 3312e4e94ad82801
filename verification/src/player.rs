//! Per-player state inside one game: the virtual token balance, the Phase 1
//! allocation vector, and the Phase 2 participation bookkeeping with its
//! bounded opponent-history list.

use vstd::prelude::*;
use crate::constants::MAX_TRACKED_OPPONENTS;
use crate::errors::GameError;

verus! {

/// Resource allocation across the five Phase 1 activities.
#[derive(Clone, Copy, Debug, PartialEq, Eq, Structural)]
pub struct ResourceAllocations {
    /// Steady yield that slows with competition.
    pub mining: u64,
    /// Seasonal yield.
    pub farming: u64,
    /// High risk, high reward; yields nothing in a crash.
    pub trading: u64,
    /// Reserved activity with no yield.
    pub research: u64,
    /// Collaboration yield that grows with participation.
    pub social: u64,
}

/// Games played against one opponent.
#[derive(Clone, Copy, Debug, PartialEq, Eq, Structural)]
pub struct OpponentRecord {
    /// The opponent's identity.
    pub opponent: u64,
    /// Completed games against them.
    pub games_count: u8,
}

/// One player's economy inside one game. Created when a member enters
/// Phase 1; never deleted, but its monotone flags prevent re-processing.
#[derive(Clone, Debug)]
pub struct PlayerGameState {
    /// The player's identity.
    pub player: u64,
    /// The game this state belongs to.
    pub game_id: u64,
    /// Virtual token balance used for all intra-game economic actions.
    pub virtual_balance: u64,
    /// Total virtual tokens earned from rewards.
    pub total_earned: u64,
    /// Last time Phase 1 rewards were accrued.
    pub last_claim_time: u64,
    /// Whether `allocations` is currently applied to the pools.
    pub has_active_allocation: bool,
    /// The active allocation vector.
    pub allocations: ResourceAllocations,
    /// Phase 2: completed challenge games.
    pub phase2_games_played: u8,
    /// Phase 2: challenge games won.
    pub phase2_games_won: u8,
    /// Phase 2: bounded history of opponents played, at most one record
    /// per opponent and at most ten records in all.
    pub phase2_opponents_played: Vec<OpponentRecord>,
    /// Whether the Phase 2 participation requirement was met; monotone.
    pub phase2_requirement_met: bool,
    /// Whether the Phase 2 penalty was applied; monotone.
    pub phase2_penalty_applied: bool,
    /// Whether this player collected the Phase 3 prize; monotone.
    pub phase3_prize_claimed: bool,
}

/// Whether the history list holds a record for `opp`.
pub open spec fn has_opponent(s: Seq<OpponentRecord>, opp: u64) -> bool {
    exists|i: int| 0 <= i < s.len() && s[i].opponent == opp
}

/// Games recorded against `opp`: the count of its record, or zero without
/// one. Well-formed lists hold at most one record per opponent, so the
/// chosen record is the record.
pub open spec fn games_against(s: Seq<OpponentRecord>, opp: u64) -> int {
    if has_opponent(s, opp) {
        s[choose|i: int| 0 <= i < s.len() && s[i].opponent == opp].games_count as int
    } else {
        0
    }
}

/// Well-formedness of a player record: the win count never exceeds the
/// game count, the history list is bounded and keyed, and no opponent
/// record outruns the total game count.
pub open spec fn player_wf(p: PlayerGameState) -> bool {
    &&& p.phase2_games_won <= p.phase2_games_played
    &&& p.phase2_opponents_played@.len() <= MAX_TRACKED_OPPONENTS
    &&& forall|i: int, j: int|
        0 <= i < p.phase2_opponents_played@.len() && 0 <= j < p.phase2_opponents_played@.len() && i
            != j ==> p.phase2_opponents_played@[i].opponent != p.phase2_opponents_played@[j].opponent
    &&& forall|i: int|
        0 <= i < p.phase2_opponents_played@.len() ==> 1 <= (
        #[trigger] p.phase2_opponents_played@[i]).games_count <= p.phase2_games_played
}

/// The fields `record_game_played` leaves alone.
pub open spec fn player_economy_unchanged(a: PlayerGameState, b: PlayerGameState) -> bool {
    &&& b.player == a.player
    &&& b.game_id == a.game_id
    &&& b.virtual_balance == a.virtual_balance
    &&& b.total_earned == a.total_earned
    &&& b.last_claim_time == a.last_claim_time
    &&& b.has_active_allocation == a.has_active_allocation
    &&& b.allocations == a.allocations
    &&& b.phase2_requirement_met == a.phase2_requirement_met
    &&& b.phase2_penalty_applied == a.phase2_penalty_applied
    &&& b.phase3_prize_claimed == a.phase3_prize_claimed
}

/// The counter updates `record_game_played` can fail on: the total game
/// count, the win count on a win, or the opponent record's own count.
pub open spec fn spec_record_game_error(p: PlayerGameState, opp: u64, won: bool) -> bool {
    ||| p.phase2_games_played == u8::MAX
    ||| (won && p.phase2_games_won == u8::MAX)
    ||| (has_opponent(p.phase2_opponents_played@, opp) && games_against(
        p.phase2_opponents_played@,
        opp,
    ) == u8::MAX)
}

/// How one recorded game against `opp` (won if `won`) moves the Phase 2
/// counters from `p0` to `p1`: the game count and, on a win, the win count
/// go up by one; the games recorded against `opp` go up by one unless
/// `opp` is a new opponent the full history list drops; every other
/// opponent's record is untouched.
pub open spec fn record_applied(
    p0: PlayerGameState,
    p1: PlayerGameState,
    opp: u64,
    won: bool,
) -> bool {
    &&& p1.phase2_games_played == p0.phase2_games_played + 1
    &&& p1.phase2_games_won == p0.phase2_games_won + (if won {
        1int
    } else {
        0int
    })
    &&& games_against(p1.phase2_opponents_played@, opp) == (if has_opponent(
        p0.phase2_opponents_played@,
        opp,
    ) || p0.phase2_opponents_played@.len() < MAX_TRACKED_OPPONENTS {
        games_against(p0.phase2_opponents_played@, opp) + 1
    } else {
        0int
    })
    &&& forall|x: u64|
        x != opp ==> games_against(p1.phase2_opponents_played@, x) == games_against(
            p0.phase2_opponents_played@,
            x,
        )
}

/// Fewest games that satisfy the participation requirement: eighty percent
/// of the required count, rounded up.
pub open spec fn spec_min_games(required_games: u8) -> int {
    (required_games * 4 + 4) / 5
}

impl PlayerGameState {
    /// Whether this player may still challenge `opponent` under the
    /// per-opponent cap. An opponent the bounded history list silently
    /// dropped counts zero games, so they stay challengeable.
    pub fn can_challenge_opponent(&self, opponent: u64, max_games: u8) -> (b: bool)
        requires
            player_wf(*self),
        ensures
            b == (games_against(self.phase2_opponents_played@, opponent) < max_games),
    {
        let mut i: usize = 0;
        let n = self.phase2_opponents_played.len();
        while i < n
            invariant
                0 <= i <= n,
                n == self.phase2_opponents_played@.len(),
                player_wf(*self),
                forall|j: int| 0 <= j < i ==> self.phase2_opponents_played@[j].opponent != opponent,
            decreases n - i,
        {
            if self.phase2_opponents_played[i].opponent == opponent {
                proof {
                    let s = self.phase2_opponents_played@;
                    assert(has_opponent(s, opponent));
                    let k = choose|k: int| 0 <= k < s.len() && s[k].opponent == opponent;
                    assert(s[k] == s[i as int]);
                }
                return self.phase2_opponents_played[i].games_count < max_games;
            }
            i = i + 1;
        }
        proof {
            assert(!has_opponent(self.phase2_opponents_played@, opponent));
        }
        max_games > 0
    }

    /// Record a completed mini-game against `opp`: bump the game count,
    /// the win count on a win, and the opponent's record. A new opponent
    /// is only tracked while the bounded list has room; once it is full,
    /// games against new opponents are played but not tracked.
    pub fn record_game_played(&mut self, opp: u64, won: bool) -> (r: Result<(), GameError>)
        requires
            player_wf(*old(self)),
        ensures
            player_wf(*final(self)),
            player_economy_unchanged(*old(self), *final(self)),
            r is Err ==> r == Err::<(), GameError>(GameError::MathOverflow)
                && spec_record_game_error(*old(self), opp, won) && *final(self) == *old(self),
            r is Ok ==> !spec_record_game_error(*old(self), opp, won) && record_applied(
                *old(self),
                *final(self),
                opp,
                won,
            ),
    {
        if self.phase2_games_played == u8::MAX {
            return Err(GameError::MathOverflow);
        }
        if won && self.phase2_games_won == u8::MAX {
            return Err(GameError::MathOverflow);
        }

        // Find the record for this opponent, if the list tracks them.
        let ghost s0 = self.phase2_opponents_played@;
        let mut idx: usize = 0;
        let n = self.phase2_opponents_played.len();
        let mut found = false;
        while idx < n && !found
            invariant
                0 <= idx <= n,
                n == s0.len(),
                self.phase2_opponents_played@ == s0,
                !found ==> forall|j: int| 0 <= j < idx ==> s0[j].opponent != opp,
                found ==> idx < n && s0[idx as int].opponent == opp && forall|j: int|
                    0 <= j < idx ==> s0[j].opponent != opp,
            decreases n - idx + (if found {
                0int
            } else {
                1int
            }),
        {
            if self.phase2_opponents_played[idx].opponent == opp {
                found = true;
            } else {
                idx = idx + 1;
            }
        }

        if found {
            proof {
                assert(has_opponent(s0, opp));
                let k = choose|k: int| 0 <= k < s0.len() && s0[k].opponent == opp;
                assert(s0[k] == s0[idx as int]);
            }
            let count = self.phase2_opponents_played[idx].games_count;
            if count == u8::MAX {
                return Err(GameError::MathOverflow);
            }
            self.phase2_opponents_played[idx] = OpponentRecord {
                opponent: opp,
                games_count: count + 1,
            };
        } else {
            proof {
                assert(!has_opponent(s0, opp));
            }
            if self.phase2_opponents_played.len() < MAX_TRACKED_OPPONENTS {
                self.phase2_opponents_played.push(OpponentRecord { opponent: opp, games_count: 1 });
            }
        }

        self.phase2_games_played = self.phase2_games_played + 1;
        if won {
            self.phase2_games_won = self.phase2_games_won + 1;
        }

        proof {
            let s1 = self.phase2_opponents_played@;
            // Record for record, the opponents keep their positions, so the
            // list stays keyed by opponent.
            assert forall|i: int| 0 <= i < s1.len() implies (i < s0.len() && (
            #[trigger] s1[i]).opponent == s0[i].opponent) || (i >= s0.len() && s1[i].opponent
                == opp) by {}
            if found {
                assert(has_opponent(s1, opp)) by {
                    assert(s1[idx as int].opponent == opp);
                }
                let k = choose|k: int| 0 <= k < s1.len() && s1[k].opponent == opp;
                assert(k == idx as int);
                assert(games_against(s1, opp) == games_against(s0, opp) + 1);
                assert forall|x: u64| x != opp implies games_against(s1, x) == games_against(
                    s0,
                    x,
                ) by {
                    lemma_games_against_pointwise(s0, s1, x);
                }
            } else if s0.len() < MAX_TRACKED_OPPONENTS {
                assert(has_opponent(s1, opp)) by {
                    assert(s1[s0.len() as int].opponent == opp);
                }
                let k = choose|k: int| 0 <= k < s1.len() && s1[k].opponent == opp;
                assert(k == s0.len() as int);
                assert(games_against(s1, opp) == 1);
                assert(games_against(s0, opp) == 0);
                assert forall|x: u64| x != opp implies games_against(s1, x) == games_against(
                    s0,
                    x,
                ) by {
                    lemma_games_against_pointwise(s0, s1, x);
                }
            } else {
                assert(s1 == s0);
                assert(games_against(s0, opp) == 0);
            }
        }
        Ok(())
    }

    /// Whether the player met the Phase 2 participation requirement:
    /// at least eighty percent of the required games, rounded up.
    pub fn check_phase2_requirement(&self, required_games: u8) -> (b: bool)
        ensures
            b == (self.phase2_games_played as int >= spec_min_games(required_games)),
    {
        let min_games: u16 = (required_games as u16 * 4 + 4) / 5;
        self.phase2_games_played as u16 >= min_games
    }
}

/// Two lists that agree on every record whose opponent is `x` (same
/// positions holding `x`, with equal records), where the first holds at
/// most one record for `x`, record the same games against `x`.
proof fn lemma_games_against_pointwise(s0: Seq<OpponentRecord>, s1: Seq<OpponentRecord>, x: u64)
    requires
        forall|i: int|
            0 <= i < s0.len() && (#[trigger] s0[i]).opponent == x ==> i < s1.len() && s1[i] == s0[i],
        forall|i: int|
            0 <= i < s1.len() && (#[trigger] s1[i]).opponent == x ==> i < s0.len() && s0[i] == s1[i],
        forall|i: int, j: int|
            0 <= i < s0.len() && 0 <= j < s0.len() && i != j ==> !((#[trigger] s0[i]).opponent == x
                && (#[trigger] s0[j]).opponent == x),
    ensures
        games_against(s1, x) == games_against(s0, x),
{
    if has_opponent(s0, x) {
        let i = choose|i: int| 0 <= i < s0.len() && s0[i].opponent == x;
        assert(s1[i] == s0[i]);
        assert(has_opponent(s1, x));
        let j = choose|j: int| 0 <= j < s1.len() && s1[j].opponent == x;
        assert(s0[j] == s1[j]);
        assert(j == i);
    } else {
        if has_opponent(s1, x) {
            let j = choose|j: int| 0 <= j < s1.len() && s1[j].opponent == x;
            assert(s0[j] == s1[j]);
            assert(false);
        }
    }
}

} // verus!
