//! Phase 1, the resource economy: player and pool initialization, resource
//! allocation across the five activities, and lazy time-weighted reward
//! accrual with competition-driven multipliers.
//!
//! Every reward is the exact rational product of allocation, rate,
//! multiplier and elapsed hours, truncated toward zero; the multipliers
//! and their scales live in [`crate::pool`].

use vstd::prelude::*;
use crate::constants::FARMING_BASE_RATE;
use crate::constants::INITIAL_BALANCE_MULTIPLIER;
use crate::constants::MINING_BASE_RATE;
use crate::constants::SOCIAL_BASE_RATE;
use crate::errors::GameError;
use crate::game::Game;
use crate::game::game_wf;
use crate::player::PlayerGameState;
use crate::player::ResourceAllocations;
use crate::player::player_wf;
use crate::player::spec_min_games;
use crate::pool::GamePoolState;
use crate::pool::spec_farming_multiplier;
use crate::pool::spec_mining_factor;
use crate::pool::spec_social_multiplier;
use crate::utils::get_effective_claim_time;
use vstd::arithmetic::div_mod::lemma_div_is_ordered;
use vstd::arithmetic::div_mod::lemma_div_is_ordered_by_denominator;

verus! {

/// The validation `initialize_player_state` performs, in order; `Ok`
/// carries the initial virtual balance.
pub open spec fn spec_init_player_error(g: Game, player: u64) -> Result<u64, GameError> {
    if !g.game_started {
        Err(GameError::GameNotStarted)
    } else if !g.players@.contains(player) {
        Err(GameError::NotInGame)
    } else if g.entry_fee * INITIAL_BALANCE_MULTIPLIER > u64::MAX {
        Err(GameError::MathOverflow)
    } else {
        Ok((g.entry_fee * INITIAL_BALANCE_MULTIPLIER) as u64)
    }
}

/// Create a member's economy for a started game: a virtual balance of ten
/// times the entry fee and cleared allocation and participation state.
pub fn initialize_player_state(game: &Game, player: u64, now: u64) -> (r: Result<
    PlayerGameState,
    GameError,
>)
    ensures
        match r {
            Err(e) => Err::<u64, GameError>(e) == spec_init_player_error(*game, player),
            Ok(ps) => {
                &&& spec_init_player_error(*game, player) is Ok
                &&& player_wf(ps)
                &&& ps.player == player
                &&& ps.game_id == game.game_id
                &&& ps.virtual_balance == game.entry_fee * INITIAL_BALANCE_MULTIPLIER
                &&& ps.total_earned == 0
                &&& ps.last_claim_time == now
                &&& !ps.has_active_allocation
                &&& ps.allocations == (ResourceAllocations {
                    mining: 0,
                    farming: 0,
                    trading: 0,
                    research: 0,
                    social: 0,
                })
                &&& ps.phase2_games_played == 0
                &&& ps.phase2_games_won == 0
                &&& ps.phase2_opponents_played@ == Seq::<crate::player::OpponentRecord>::empty()
                &&& !ps.phase2_requirement_met
                &&& !ps.phase2_penalty_applied
                &&& !ps.phase3_prize_claimed
            },
        },
{
    if !game.game_started {
        return Err(GameError::GameNotStarted);
    }
    if !crate::game::contains_id(&game.players, player) {
        return Err(GameError::NotInGame);
    }
    let balance = match game.entry_fee.checked_mul(INITIAL_BALANCE_MULTIPLIER) {
        Some(v) => v,
        None => {
            return Err(GameError::MathOverflow);
        },
    };
    Ok(
        PlayerGameState {
            player,
            game_id: game.game_id,
            virtual_balance: balance,
            total_earned: 0,
            last_claim_time: now,
            has_active_allocation: false,
            allocations: ResourceAllocations {
                mining: 0,
                farming: 0,
                trading: 0,
                research: 0,
                social: 0,
            },
            phase2_games_played: 0,
            phase2_games_won: 0,
            phase2_opponents_played: Vec::new(),
            phase2_requirement_met: false,
            phase2_penalty_applied: false,
            phase3_prize_claimed: false,
        },
    )
}

/// Create the pool record for a started game: all totals zero, season
/// zero, a normal market.
pub fn initialize_pool_state(game: &Game, now: u64) -> (r: Result<GamePoolState, GameError>)
    ensures
        match r {
            Err(e) => e == GameError::GameNotStarted && !game.game_started,
            Ok(pool) => {
                &&& game.game_started
                &&& pool == (GamePoolState {
                    game_id: game.game_id,
                    mining_pool_total: 0,
                    farming_pool_total: 0,
                    trading_pool_total: 0,
                    research_pool_total: 0,
                    social_pool_total: 0,
                    social_pool_participants: 0,
                    farming_season: 0,
                    trading_market_state: 1,
                    last_event_time: now,
                })
            },
        },
{
    if !game.game_started {
        return Err(GameError::GameNotStarted);
    }
    Ok(
        GamePoolState {
            game_id: game.game_id,
            mining_pool_total: 0,
            farming_pool_total: 0,
            trading_pool_total: 0,
            research_pool_total: 0,
            social_pool_total: 0,
            social_pool_participants: 0,
            farming_season: 0,
            trading_market_state: 1,
            last_event_time: now,
        },
    )
}

/// The contribution a player's record currently makes to the pool totals:
/// their allocation vector while it is active, nothing otherwise.
pub open spec fn spec_active_contribution(ps: PlayerGameState) -> ResourceAllocations {
    if ps.has_active_allocation {
        ps.allocations
    } else {
        ResourceAllocations { mining: 0, farming: 0, trading: 0, research: 0, social: 0 }
    }
}

/// The social participant count after removing a player's active social
/// participation, saturating at zero as the pool update does.
pub open spec fn spec_participants_after_removal(ps: PlayerGameState, pool: GamePoolState) -> int {
    if ps.has_active_allocation && ps.allocations.social > 0 {
        if pool.social_pool_participants > 0 {
            pool.social_pool_participants - 1
        } else {
            0
        }
    } else {
        pool.social_pool_participants as int
    }
}

/// The validation `submit_allocations` performs, in order.
pub open spec fn spec_submit_allocations(
    g: Game,
    ps: PlayerGameState,
    pool: GamePoolState,
    mining: u64,
    farming: u64,
    trading: u64,
    research: u64,
    social: u64,
) -> Result<(), GameError> {
    let sub = spec_active_contribution(ps);
    if g.current_phase != 1 {
        Err(GameError::InvalidPhase)
    } else if mining + farming + trading + research + social != ps.virtual_balance {
        Err(GameError::InvalidAllocation)
    } else if pool.mining_pool_total < sub.mining || pool.farming_pool_total < sub.farming
        || pool.trading_pool_total < sub.trading || pool.research_pool_total < sub.research
        || pool.social_pool_total < sub.social {
        Err(GameError::MathOverflow)
    } else if pool.mining_pool_total - sub.mining + mining > u64::MAX || pool.farming_pool_total
        - sub.farming + farming > u64::MAX || pool.trading_pool_total - sub.trading + trading
        > u64::MAX || pool.research_pool_total - sub.research + research > u64::MAX
        || pool.social_pool_total - sub.social + social > u64::MAX {
        Err(GameError::MathOverflow)
    } else if social > 0 && spec_participants_after_removal(ps, pool) == u32::MAX {
        Err(GameError::MathOverflow)
    } else {
        Ok(())
    }
}

/// Submit or update the resource allocation for Phase 1. The whole balance
/// must be allocated exactly; a prior active allocation is first backed
/// out of the pool totals before the new one is applied.
pub fn submit_allocations(
    game: &Game,
    player_state: &mut PlayerGameState,
    pool_state: &mut GamePoolState,
    mining: u64,
    farming: u64,
    trading: u64,
    research: u64,
    social: u64,
) -> (r: Result<(), GameError>)
    requires
        player_wf(*old(player_state)),
    ensures
        player_wf(*final(player_state)),
        r == spec_submit_allocations(
            *game,
            *old(player_state),
            *old(pool_state),
            mining,
            farming,
            trading,
            research,
            social,
        ),
        r is Err ==> *final(player_state) == *old(player_state) && *final(pool_state) == *old(
            pool_state,
        ),
        r is Ok ==> {
            let sub = spec_active_contribution(*old(player_state));
            &&& final(player_state).allocations == (ResourceAllocations {
                mining,
                farming,
                trading,
                research,
                social,
            })
            &&& final(player_state).has_active_allocation
            &&& final(player_state).player == old(player_state).player
            &&& final(player_state).game_id == old(player_state).game_id
            &&& final(player_state).virtual_balance == old(player_state).virtual_balance
            &&& final(player_state).total_earned == old(player_state).total_earned
            &&& final(player_state).last_claim_time == old(player_state).last_claim_time
            &&& final(player_state).phase2_requirement_met == old(
                player_state,
            ).phase2_requirement_met
            &&& final(player_state).phase2_penalty_applied == old(
                player_state,
            ).phase2_penalty_applied
            &&& final(player_state).phase3_prize_claimed == old(player_state).phase3_prize_claimed
            &&& final(player_state).phase2_games_played == old(player_state).phase2_games_played
            &&& final(player_state).phase2_games_won == old(player_state).phase2_games_won
            &&& final(player_state).phase2_opponents_played@ == old(
                player_state,
            ).phase2_opponents_played@
            &&& final(pool_state).mining_pool_total == old(pool_state).mining_pool_total
                - sub.mining + mining
            &&& final(pool_state).farming_pool_total == old(pool_state).farming_pool_total
                - sub.farming + farming
            &&& final(pool_state).trading_pool_total == old(pool_state).trading_pool_total
                - sub.trading + trading
            &&& final(pool_state).research_pool_total == old(pool_state).research_pool_total
                - sub.research + research
            &&& final(pool_state).social_pool_total == old(pool_state).social_pool_total
                - sub.social + social
            &&& final(pool_state).social_pool_participants as int == spec_participants_after_removal(
                *old(player_state),
                *old(pool_state),
            ) + (if social > 0 {
                1int
            } else {
                0int
            })
            &&& final(pool_state).game_id == old(pool_state).game_id
            &&& final(pool_state).farming_season == old(pool_state).farming_season
            &&& final(pool_state).trading_market_state == old(pool_state).trading_market_state
            &&& final(pool_state).last_event_time == old(pool_state).last_event_time
        },
{
    if game.current_phase != 1 {
        return Err(GameError::InvalidPhase);
    }
    let total: u128 = mining as u128 + farming as u128 + trading as u128 + research as u128
        + social as u128;
    if total != player_state.virtual_balance as u128 {
        return Err(GameError::InvalidAllocation);
    }

    let active = player_state.has_active_allocation;
    let sub_mining = if active {
        player_state.allocations.mining
    } else {
        0
    };
    let sub_farming = if active {
        player_state.allocations.farming
    } else {
        0
    };
    let sub_trading = if active {
        player_state.allocations.trading
    } else {
        0
    };
    let sub_research = if active {
        player_state.allocations.research
    } else {
        0
    };
    let sub_social = if active {
        player_state.allocations.social
    } else {
        0
    };
    if pool_state.mining_pool_total < sub_mining || pool_state.farming_pool_total < sub_farming
        || pool_state.trading_pool_total < sub_trading || pool_state.research_pool_total
        < sub_research || pool_state.social_pool_total < sub_social {
        return Err(GameError::MathOverflow);
    }
    let new_mining = match (pool_state.mining_pool_total - sub_mining).checked_add(mining) {
        Some(v) => v,
        None => {
            return Err(GameError::MathOverflow);
        },
    };
    let new_farming = match (pool_state.farming_pool_total - sub_farming).checked_add(farming) {
        Some(v) => v,
        None => {
            return Err(GameError::MathOverflow);
        },
    };
    let new_trading = match (pool_state.trading_pool_total - sub_trading).checked_add(trading) {
        Some(v) => v,
        None => {
            return Err(GameError::MathOverflow);
        },
    };
    let new_research = match (pool_state.research_pool_total - sub_research).checked_add(research) {
        Some(v) => v,
        None => {
            return Err(GameError::MathOverflow);
        },
    };
    let new_social = match (pool_state.social_pool_total - sub_social).checked_add(social) {
        Some(v) => v,
        None => {
            return Err(GameError::MathOverflow);
        },
    };
    let parts_removed: u32 = if active && sub_social > 0 {
        if pool_state.social_pool_participants > 0 {
            pool_state.social_pool_participants - 1
        } else {
            0
        }
    } else {
        pool_state.social_pool_participants
    };
    let new_participants: u32 = if social > 0 {
        match parts_removed.checked_add(1) {
            Some(v) => v,
            None => {
                return Err(GameError::MathOverflow);
            },
        }
    } else {
        parts_removed
    };

    player_state.allocations = ResourceAllocations { mining, farming, trading, research, social };
    player_state.has_active_allocation = true;
    pool_state.mining_pool_total = new_mining;
    pool_state.farming_pool_total = new_farming;
    pool_state.trading_pool_total = new_trading;
    pool_state.research_pool_total = new_research;
    pool_state.social_pool_total = new_social;
    pool_state.social_pool_participants = new_participants;
    Ok(())
}

/// Mining reward for `secs` seconds: allocation times the base rate of 7
/// per hour, scaled by the difficulty factor, truncated.
pub open spec fn spec_mining_reward(alloc: u64, mining_pool_total: u64, secs: int) -> int {
    alloc * MINING_BASE_RATE * spec_mining_factor(mining_pool_total) * secs / 36000000000000000
}

/// Farming reward for `secs` seconds: allocation times the base rate of 10
/// per hour, scaled by the seasonal multiplier, truncated.
pub open spec fn spec_farming_reward(alloc: u64, farming_season: u8, secs: int) -> int {
    alloc * FARMING_BASE_RATE * spec_farming_multiplier(farming_season) * secs / 3600
}

/// Trading reward for `secs` seconds: allocation times the market
/// multiplier per hour, truncated. A crash computes a loss; the loss is
/// discarded, never debited, so only the two positive market states yield.
pub open spec fn spec_trading_reward(alloc: u64, trading_market_state: u8, secs: int) -> int {
    if trading_market_state == 1 {
        alloc * 20 * secs / 3600
    } else if trading_market_state == 2 {
        alloc * 100 * secs / 3600
    } else {
        0
    }
}

/// Social reward for `secs` seconds: allocation times the base rate of 4
/// per hour, scaled by the collaboration multiplier, truncated.
pub open spec fn spec_social_reward(alloc: u64, social_pool_participants: u32, secs: int) -> int {
    alloc * SOCIAL_BASE_RATE * spec_social_multiplier(social_pool_participants) * secs / 36000
}

/// Total reward over the four yielding activities.
pub open spec fn spec_total_rewards(
    a: ResourceAllocations,
    pool: GamePoolState,
    secs: int,
) -> int {
    spec_mining_reward(a.mining, pool.mining_pool_total, secs) + spec_farming_reward(
        a.farming,
        pool.farming_season,
        secs,
    ) + spec_trading_reward(a.trading, pool.trading_market_state, secs) + spec_social_reward(
        a.social,
        pool.social_pool_participants,
        secs,
    )
}

/// The machine bounds an accrual can exceed: a reward numerator past the
/// widest intermediate, or a total past the balance fields.
pub open spec fn spec_rewards_overflow(
    ps: PlayerGameState,
    pool: GamePoolState,
    secs: int,
) -> bool {
    let a = ps.allocations;
    let total = spec_total_rewards(a, pool, secs);
    ||| a.mining * MINING_BASE_RATE * spec_mining_factor(pool.mining_pool_total) * secs > u128::MAX
    ||| a.farming * FARMING_BASE_RATE * spec_farming_multiplier(pool.farming_season) * secs > u128::MAX
    ||| (pool.trading_market_state == 1 && a.trading * 20 * secs > u128::MAX)
    ||| (pool.trading_market_state == 2 && a.trading * 100 * secs > u128::MAX)
    ||| a.social * SOCIAL_BASE_RATE * spec_social_multiplier(pool.social_pool_participants) * secs > u128::MAX
    ||| total > u64::MAX
    ||| ps.virtual_balance + total > u64::MAX
    ||| ps.total_earned + total > u64::MAX
}

/// The time rewards accrue up to: the current time, capped at phase end.
pub open spec fn spec_effective_time(g: Game, now: u64) -> u64 {
    if now > g.phase_end_time {
        g.phase_end_time
    } else {
        now
    }
}

/// The validation `claim_rewards` performs, in order. A claim with no
/// active allocation or no elapsed time succeeds and changes nothing.
pub open spec fn spec_claim_rewards(
    g: Game,
    ps: PlayerGameState,
    pool: GamePoolState,
    now: u64,
) -> Result<(), GameError> {
    let eff = spec_effective_time(g, now);
    if g.current_phase != 1 {
        Err(GameError::InvalidPhase)
    } else if !ps.has_active_allocation {
        Ok(())
    } else if eff <= ps.last_claim_time {
        Ok(())
    } else if spec_rewards_overflow(ps, pool, eff - ps.last_claim_time) {
        Err(GameError::MathOverflow)
    } else {
        Ok(())
    }
}

/// Whether a claim at `now` actually accrues: Phase 1, an active
/// allocation, and time elapsed since the last claim.
pub open spec fn spec_claim_accrues(g: Game, ps: PlayerGameState, now: u64) -> bool {
    &&& g.current_phase == 1
    &&& ps.has_active_allocation
    &&& spec_effective_time(g, now) > ps.last_claim_time
}

/// One activity's reward numerator and quotient:
/// `alloc * rate * mult * secs / divisor`, or `None` past the widest
/// intermediate.
fn scaled_reward(alloc: u64, rate: u64, mult: u64, secs: u64, divisor: u64) -> (r: Option<u128>)
    requires
        1 <= rate <= 100,
        mult <= 10000000000000,
        3600 <= divisor,
    ensures
        match r {
            Some(v) => alloc * rate * mult * secs <= u128::MAX && v == alloc * rate * mult * secs
                / (divisor as int) && v <= u128::MAX as int / 3600,
            None => alloc * rate * mult * secs > u128::MAX,
        },
{
    proof {
        assert(alloc * rate <= u64::MAX * 100) by (nonlinear_arith)
            requires
                alloc <= u64::MAX,
                0 <= rate <= 100,
        ;
    }
    let n1: u128 = (alloc as u128) * (rate as u128);
    proof {
        assert(n1 * mult <= (u64::MAX * 100) * 10000000000000) by (nonlinear_arith)
            requires
                0 <= n1 <= u64::MAX * 100,
                0 <= mult <= 10000000000000,
        ;
    }
    let n2: u128 = n1 * (mult as u128);
    match n2.checked_mul(secs as u128) {
        Some(n3) => {
            let v = n3 / (divisor as u128);
            proof {
                lemma_div_is_ordered(n3 as int, u128::MAX as int, divisor as int);
                lemma_div_is_ordered_by_denominator(u128::MAX as int, 3600, divisor as int);
            }
            Some(v)
        },
        None => None,
    }
}

/// Claim accrued Phase 1 rewards: for each activity with an allocation,
/// the exact truncated product of allocation, rate, multiplier and hours
/// elapsed since the last claim, credited to the virtual balance. Accrual
/// stops at phase end, and a crash-state trading loss is discarded.
pub fn claim_rewards(
    game: &Game,
    player_state: &mut PlayerGameState,
    pool_state: &GamePoolState,
    now: u64,
) -> (r: Result<(), GameError>)
    requires
        player_wf(*old(player_state)),
    ensures
        player_wf(*final(player_state)),
        r == spec_claim_rewards(*game, *old(player_state), *pool_state, now),
        !(r is Ok && spec_claim_accrues(*game, *old(player_state), now)) ==> *final(player_state)
            == *old(player_state),
        r is Ok && spec_claim_accrues(*game, *old(player_state), now) ==> {
            let eff = spec_effective_time(*game, now);
            let total = spec_total_rewards(
                old(player_state).allocations,
                *pool_state,
                eff - old(player_state).last_claim_time,
            );
            &&& final(player_state).virtual_balance == old(player_state).virtual_balance + total
            &&& final(player_state).total_earned == old(player_state).total_earned + total
            &&& final(player_state).last_claim_time == eff
            &&& final(player_state).player == old(player_state).player
            &&& final(player_state).game_id == old(player_state).game_id
            &&& final(player_state).has_active_allocation == old(
                player_state,
            ).has_active_allocation
            &&& final(player_state).allocations == old(player_state).allocations
            &&& final(player_state).phase2_games_played == old(player_state).phase2_games_played
            &&& final(player_state).phase2_games_won == old(player_state).phase2_games_won
            &&& final(player_state).phase2_opponents_played@ == old(
                player_state,
            ).phase2_opponents_played@
            &&& final(player_state).phase2_requirement_met == old(
                player_state,
            ).phase2_requirement_met
            &&& final(player_state).phase2_penalty_applied == old(
                player_state,
            ).phase2_penalty_applied
            &&& final(player_state).phase3_prize_claimed == old(player_state).phase3_prize_claimed
        },
{
    if game.current_phase != 1 {
        return Err(GameError::InvalidPhase);
    }
    if !player_state.has_active_allocation {
        return Ok(());
    }
    let effective_time = get_effective_claim_time(now, game.phase_end_time);
    if effective_time <= player_state.last_claim_time {
        return Ok(());
    }
    let secs: u64 = effective_time - player_state.last_claim_time;
    let a = player_state.allocations;

    let mining_reward: u128 = if a.mining > 0 {
        let factor = pool_state.get_mining_difficulty_factor();
        match scaled_reward(a.mining, MINING_BASE_RATE, factor, secs, 36000000000000000) {
            Some(v) => v,
            None => {
                return Err(GameError::MathOverflow);
            },
        }
    } else {
        0
    };
    let farming_reward: u128 = if a.farming > 0 {
        let mult = pool_state.get_farming_multiplier();
        match scaled_reward(a.farming, FARMING_BASE_RATE, mult, secs, 3600) {
            Some(v) => v,
            None => {
                return Err(GameError::MathOverflow);
            },
        }
    } else {
        0
    };
    let trading_reward: u128 = if a.trading > 0 && (pool_state.trading_market_state == 1
        || pool_state.trading_market_state == 2) {
        let rate: u64 = if pool_state.trading_market_state == 1 {
            20
        } else {
            100
        };
        match scaled_reward(a.trading, rate, 1, secs, 3600) {
            Some(v) => v,
            None => {
                return Err(GameError::MathOverflow);
            },
        }
    } else {
        0
    };
    let social_reward: u128 = if a.social > 0 {
        let mult = pool_state.get_social_multiplier();
        match scaled_reward(a.social, SOCIAL_BASE_RATE, mult, secs, 36000) {
            Some(v) => v,
            None => {
                return Err(GameError::MathOverflow);
            },
        }
    } else {
        0
    };

    proof {
        let s = secs as int;
        if a.mining == 0 {
            assert(a.mining * MINING_BASE_RATE * spec_mining_factor(pool_state.mining_pool_total)
                * s == 0) by (nonlinear_arith)
                requires a.mining == 0;
        }
        if a.farming == 0 {
            assert(a.farming * FARMING_BASE_RATE * spec_farming_multiplier(
                pool_state.farming_season,
            ) * s == 0) by (nonlinear_arith)
                requires a.farming == 0;
        }
        if a.trading == 0 {
            assert(a.trading * 20 * s == 0) by (nonlinear_arith)
                requires a.trading == 0;
            assert(a.trading * 100 * s == 0) by (nonlinear_arith)
                requires a.trading == 0;
        }
        if a.social == 0 {
            assert(a.social * SOCIAL_BASE_RATE * spec_social_multiplier(
                pool_state.social_pool_participants,
            ) * s == 0) by (nonlinear_arith)
                requires a.social == 0;
        }
        if a.trading > 0 && pool_state.trading_market_state == 1 {
            assert(a.trading * 20 * 1 * s == a.trading * 20 * s) by (nonlinear_arith);
        }
        if a.trading > 0 && pool_state.trading_market_state == 2 {
            assert(a.trading * 100 * 1 * s == a.trading * 100 * s) by (nonlinear_arith);
        }
    }
    let total128: u128 = mining_reward + farming_reward + trading_reward + social_reward;
    if total128 > u64::MAX as u128 {
        return Err(GameError::MathOverflow);
    }
    let total: u64 = total128 as u64;
    let new_balance = match player_state.virtual_balance.checked_add(total) {
        Some(v) => v,
        None => {
            return Err(GameError::MathOverflow);
        },
    };
    let new_earned = match player_state.total_earned.checked_add(total) {
        Some(v) => v,
        None => {
            return Err(GameError::MathOverflow);
        },
    };
    player_state.virtual_balance = new_balance;
    player_state.total_earned = new_earned;
    player_state.last_claim_time = effective_time;
    Ok(())
}

/// The validation `claim_phase_end_rewards` performs.
pub open spec fn spec_claim_phase_end(g: Game) -> Result<(), GameError> {
    if g.current_phase <= 1 {
        Err(GameError::PhaseNotEnded)
    } else {
        Ok(())
    }
}

/// Whether the phase-end settlement call applies the Phase 2 outcome:
/// Phase 2 just ended and this player was not penalized yet.
pub open spec fn spec_phase_end_settles(g: Game, ps: PlayerGameState) -> bool {
    g.current_phase == 3 && !ps.phase2_penalty_applied
}

/// Settle the Phase 2 participation requirement once Phase 2 ended: a
/// player short of the requirement loses half their balance once, a
/// player who met it is marked eligible for the purge.
pub fn claim_phase_end_rewards(game: &Game, player_state: &mut PlayerGameState) -> (r: Result<
    (),
    GameError,
>)
    requires
        player_wf(*old(player_state)),
    ensures
        player_wf(*final(player_state)),
        r == spec_claim_phase_end(*game),
        r is Err ==> *final(player_state) == *old(player_state),
        r is Ok && !spec_phase_end_settles(*game, *old(player_state)) ==> *final(player_state)
            == *old(player_state),
        r is Ok && spec_phase_end_settles(*game, *old(player_state)) ==> {
            let met = old(player_state).phase2_games_played as int >= spec_min_games(
                game.phase2_required_games,
            );
            &&& (!met ==> {
                &&& final(player_state).virtual_balance == old(player_state).virtual_balance - old(
                    player_state,
                ).virtual_balance / 2
                &&& final(player_state).phase2_penalty_applied
                &&& final(player_state).phase2_requirement_met == old(
                    player_state,
                ).phase2_requirement_met
            })
            &&& (met ==> {
                &&& final(player_state).virtual_balance == old(player_state).virtual_balance
                &&& final(player_state).phase2_requirement_met
                &&& final(player_state).phase2_penalty_applied == old(
                    player_state,
                ).phase2_penalty_applied
            })
            &&& final(player_state).player == old(player_state).player
            &&& final(player_state).game_id == old(player_state).game_id
            &&& final(player_state).total_earned == old(player_state).total_earned
            &&& final(player_state).last_claim_time == old(player_state).last_claim_time
            &&& final(player_state).has_active_allocation == old(
                player_state,
            ).has_active_allocation
            &&& final(player_state).allocations == old(player_state).allocations
            &&& final(player_state).phase2_games_played == old(player_state).phase2_games_played
            &&& final(player_state).phase2_games_won == old(player_state).phase2_games_won
            &&& final(player_state).phase2_opponents_played@ == old(
                player_state,
            ).phase2_opponents_played@
            &&& final(player_state).phase3_prize_claimed == old(player_state).phase3_prize_claimed
        },
{
    if game.current_phase <= 1 {
        return Err(GameError::PhaseNotEnded);
    }
    let phase_just_ended = game.current_phase - 1;
    if phase_just_ended == 2 && !player_state.phase2_penalty_applied {
        let met = player_state.check_phase2_requirement(game.phase2_required_games);
        if !met {
            let penalty = player_state.virtual_balance / 2;
            player_state.virtual_balance = player_state.virtual_balance - penalty;
            player_state.phase2_penalty_applied = true;
        } else {
            player_state.phase2_requirement_met = true;
        }
    }
    Ok(())
}

} // verus!
