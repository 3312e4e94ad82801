//! Fixed policy constants: timing windows, player bounds, fee percentages,
//! and the fixed-point activity rates for the Phase 1 economy.
//!
//! All real-valued rates of the economy are expressed exactly in integer
//! arithmetic: a rate is a numerator together with a documented scale, and
//! every reward is the exact rational product truncated toward zero.

use vstd::prelude::*;

verus! {

// Game timing constants (in seconds).
/// Grace window after the scheduled start time in which the creator must act.
pub const GAME_START_GRACE_PERIOD: u64 = 1800;
/// Buffer after a phase ends before anyone other than the creator may advance.
pub const PHASE_ADVANCE_BUFFER: u64 = 600;
/// Window to mark ready for the purge once Phase 3 begins.
pub const PHASE3_READY_WINDOW: u64 = 1800;
/// Additional window granted once when nobody marked ready in time.
pub const PHASE3_EXTENDED_WINDOW: u64 = 3600;

// Player requirements.
/// Fewest members with which a game may start.
pub const MIN_PLAYERS_TO_START: u8 = 3;
/// Most members a game may be created for.
pub const MAX_PLAYERS_ALLOWED: u8 = 100;
/// Fewest members a game may be created for.
pub const MIN_PLAYERS_ALLOWED: u8 = 2;

// Phase 2 challenge limits.
/// Lower clamp of the Phase 2 required-games formula.
pub const MIN_PHASE2_GAMES: u8 = 3;
/// Upper clamp of the Phase 2 required-games formula.
pub const MAX_PHASE2_GAMES: u8 = 10;
/// Declines after which a pending challenge is forced to acceptance.
pub const MAX_OPPONENT_DECLINES: u8 = 5;
/// Most distinct opponents tracked in a player's bounded history list.
pub const MAX_TRACKED_OPPONENTS: usize = 10;

// Platform fees (percentages).
/// Share of the prize pool retained by the platform on a winner payout.
pub const PLATFORM_FEE_PERCENTAGE: u64 = 1;
/// Share of the prize pool paid to the admin when nobody readies for the purge.
pub const ADMIN_SHARE_NO_READY: u64 = 25;

// Phase 1 activity base rates, in tokens per allocated token per hour.
/// Mining base rate (scaled by the mining difficulty factor).
pub const MINING_BASE_RATE: u64 = 7;
/// Farming base rate (scaled by the seasonal multiplier).
pub const FARMING_BASE_RATE: u64 = 10;
/// Nominal trading base rate; the market multiplier is applied directly.
pub const TRADING_BASE_RATE: u64 = 20;
/// Social base rate (scaled by the collaboration multiplier).
pub const SOCIAL_BASE_RATE: u64 = 4;

// Difficulty and competition factors.
/// Scale of the mining difficulty factor: the factor is a numerator out of this.
pub const MINING_DIFFICULTY_SCALE: u64 = 10000000000000;
/// Largest mining pool total that still raises difficulty; the difficulty
/// contribution is capped at half of [`MINING_DIFFICULTY_SCALE`].
pub const MINING_POOL_CAP: u64 = 5000000000000;
/// Cap on the social collaboration bonus, in tenths (a bonus of 20 is +2.0x).
pub const MAX_SOCIAL_BONUS_TENTHS: u32 = 20;
/// Scale of the social multiplier: the multiplier is a numerator out of this.
pub const SOCIAL_MULTIPLIER_SCALE: u64 = 10;

/// Virtual token balance issued on Phase 1 entry, as a multiple of the entry fee.
pub const INITIAL_BALANCE_MULTIPLIER: u64 = 10;

} // verus!
