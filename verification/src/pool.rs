//! Aggregate resource totals for one game. The pool totals drive the
//! dynamic reward multipliers of Phase 1.
//!
//! Each multiplier is an exact integer: either a plain factor, or a
//! numerator over a documented scale, so every reward below is the exact
//! rational product truncated toward zero.

use vstd::prelude::*;
use crate::constants::MAX_SOCIAL_BONUS_TENTHS;
use crate::constants::MINING_DIFFICULTY_SCALE;
use crate::constants::MINING_POOL_CAP;

verus! {

/// Global state tracking total allocations across all players of a game,
/// used to calculate competition-based rewards in Phase 1.
#[derive(Clone, Copy, Debug, PartialEq, Eq, Structural)]
pub struct GamePoolState {
    /// The game this pool belongs to.
    pub game_id: u64,
    /// Tokens allocated to mining across all players.
    pub mining_pool_total: u64,
    /// Tokens allocated to farming across all players.
    pub farming_pool_total: u64,
    /// Tokens allocated to trading across all players.
    pub trading_pool_total: u64,
    /// Tokens allocated to research across all players.
    pub research_pool_total: u64,
    /// Tokens allocated to social across all players.
    pub social_pool_total: u64,
    /// Players with an active allocation that puts tokens into social.
    pub social_pool_participants: u32,
    /// Farming season index; only its remainder by four matters.
    pub farming_season: u8,
    /// Trading market state: 0 is a crash, 1 normal, 2 a boom.
    pub trading_market_state: u8,
    /// Last time the dynamic events were updated.
    pub last_event_time: u64,
}

/// Mining difficulty factor as a numerator over
/// [`MINING_DIFFICULTY_SCALE`]: competition lowers the yield, to at most
/// half once the pool total reaches [`MINING_POOL_CAP`].
pub open spec fn spec_mining_factor(mining_pool_total: u64) -> int {
    MINING_DIFFICULTY_SCALE - (if mining_pool_total > MINING_POOL_CAP {
        MINING_POOL_CAP as int
    } else {
        mining_pool_total as int
    })
}

/// Farming multiplier by season: spring, summer, fall, winter.
pub open spec fn spec_farming_multiplier(farming_season: u8) -> int {
    if farming_season % 4 == 0 {
        30
    } else if farming_season % 4 == 1 {
        20
    } else if farming_season % 4 == 2 {
        10
    } else {
        24
    }
}

/// Trading multiplier by market state; a crash computes a loss, which the
/// reward engine discards rather than debits.
pub open spec fn spec_trading_multiplier(trading_market_state: u8) -> int {
    if trading_market_state == 0 {
        -60
    } else if trading_market_state == 1 {
        20
    } else if trading_market_state == 2 {
        100
    } else {
        0
    }
}

/// Social collaboration multiplier as a numerator over
/// [`crate::constants::SOCIAL_MULTIPLIER_SCALE`]: one plus a tenth per
/// participant, the bonus capped at two.
pub open spec fn spec_social_multiplier(social_pool_participants: u32) -> int {
    10 + (if social_pool_participants > MAX_SOCIAL_BONUS_TENTHS {
        MAX_SOCIAL_BONUS_TENTHS as int
    } else {
        social_pool_participants as int
    })
}

impl GamePoolState {
    /// Mining difficulty factor, a numerator over
    /// [`MINING_DIFFICULTY_SCALE`].
    pub fn get_mining_difficulty_factor(&self) -> (r: u64)
        ensures
            r as int == spec_mining_factor(self.mining_pool_total),
    {
        let capped = if self.mining_pool_total > MINING_POOL_CAP {
            MINING_POOL_CAP
        } else {
            self.mining_pool_total
        };
        MINING_DIFFICULTY_SCALE - capped
    }

    /// Current farming season multiplier, cycling through four seasons.
    pub fn get_farming_multiplier(&self) -> (r: u64)
        ensures
            r as int == spec_farming_multiplier(self.farming_season),
    {
        match self.farming_season % 4 {
            0 => 30,
            1 => 20,
            2 => 10,
            _ => 24,
        }
    }

    /// Trading market multiplier; negative in a crash.
    pub fn get_trading_multiplier(&self) -> (r: i64)
        ensures
            r as int == spec_trading_multiplier(self.trading_market_state),
    {
        match self.trading_market_state {
            0 => -60,
            1 => 20,
            2 => 100,
            _ => 0,
        }
    }

    /// Social collaboration multiplier, a numerator over
    /// [`crate::constants::SOCIAL_MULTIPLIER_SCALE`].
    pub fn get_social_multiplier(&self) -> (r: u64)
        ensures
            r as int == spec_social_multiplier(self.social_pool_participants),
    {
        let bonus = if self.social_pool_participants > MAX_SOCIAL_BONUS_TENTHS {
            MAX_SOCIAL_BONUS_TENTHS as u64
        } else {
            self.social_pool_participants as u64
        };
        10 + bonus
    }
}

} // verus!
