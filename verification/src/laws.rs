//! The cross-cutting guarantees of the library, each stated as a proof
//! function over the spec functions that the operations' own contracts
//! use: the escrow never over-pays at any point in history, the refund and
//! claim flags pay exactly once, the pool totals stay the sum of the
//! players' active allocations, and decline-forcing is terminal.

use vstd::prelude::*;
use crate::challenge::Challenge;
use crate::challenge::ChallengeStatus;
use crate::challenge::challenge_wf;
use crate::errors::GameError;
use crate::game::Game;
use crate::game::GameStatus;
use crate::game::status_refundable;
use crate::phase2::spec_challenge_after_decline;
use crate::phase2::spec_respond_challenge;
use crate::player::PlayerGameState;
use crate::player::ResourceAllocations;
use crate::pool::GamePoolState;
use crate::phase1::spec_active_contribution;
use crate::phase1::spec_participants_after_removal;
use crate::purge::spec_claim_platform_fee;
use crate::purge::spec_claim_prize;
use crate::lifecycle::spec_claim_refund;
use crate::lifecycle::spec_force_refund;

verus! {

// ---------------------------------------------------------------------
// The escrow ledger discipline.
//
// Every operation's contract shows one of two shapes on the `escrow`
// field: a deposit (`escrow' == escrow + amount`, entry) or a release
// (`escrow' == escrow - amount`, refunds, the prize, the platform fee,
// the redistribution). Both sides of each equation are unsigned, so a
// release can never exceed the escrow held at that moment. The lemma
// below closes the induction over a whole history of such steps.
// ---------------------------------------------------------------------

/// One step of a game's escrow ledger: what the operation deposited into
/// and released from custody.
pub struct LedgerStep {
    /// Funds taken into custody (the entry fee on entry, else zero).
    pub inflow: int,
    /// Funds released from custody (a refund, the prize, a fee, a share).
    pub outflow: int,
}

/// The escrow held after applying the steps to an initial escrow `e0`.
pub open spec fn escrow_after(e0: int, steps: Seq<LedgerStep>) -> int
    decreases steps.len(),
{
    if steps.len() == 0 {
        e0
    } else {
        escrow_after(e0, steps.drop_last()) + steps.last().inflow - steps.last().outflow
    }
}

/// Total deposited over the steps.
pub open spec fn total_inflow(steps: Seq<LedgerStep>) -> int
    decreases steps.len(),
{
    if steps.len() == 0 {
        0
    } else {
        total_inflow(steps.drop_last()) + steps.last().inflow
    }
}

/// Total released over the steps.
pub open spec fn total_outflow(steps: Seq<LedgerStep>) -> int
    decreases steps.len(),
{
    if steps.len() == 0 {
        0
    } else {
        total_outflow(steps.drop_last()) + steps.last().outflow
    }
}

/// What one operation does to a game's custody: the two game values are
/// tied by the step's amounts. Every operation's contract exhibits this
/// shape on `escrow` — entry with the fee as inflow, each claim with the
/// paid amount as outflow, everything else with both zero — and because
/// `escrow` is unsigned, a release can never dig below zero.
pub open spec fn escrow_step_ok(g0: Game, g1: Game, step: LedgerStep) -> bool {
    &&& step.inflow >= 0
    &&& step.outflow >= 0
    &&& g1.escrow == g0.escrow + step.inflow - step.outflow
}

/// Law: over any history of games linked by custody steps, the escrow at
/// every point equals the starting escrow plus the deposits so far minus
/// the releases so far — so the funds released so far never exceed the
/// starting escrow plus the entry fees collected so far, at every point in
/// the history and not only at its end. A fresh game starts at escrow
/// zero, where deposits are exactly the entry fees.
pub proof fn lemma_no_overpayment_at_every_prefix(
    games: Seq<Game>,
    steps: Seq<LedgerStep>,
    k: int,
)
    requires
        games.len() == steps.len() + 1,
        forall|i: int|
            0 <= i < steps.len() ==> escrow_step_ok(
                #[trigger] games[i],
                games[i + 1],
                steps[i],
            ),
        0 <= k <= steps.len(),
    ensures
        games[k].escrow == games[0].escrow + total_inflow(steps.take(k)) - total_outflow(
            steps.take(k),
        ),
        total_outflow(steps.take(k)) <= games[0].escrow + total_inflow(steps.take(k)),
        escrow_after(games[0].escrow as int, steps.take(k)) == games[k].escrow,
    decreases k,
{
    if k > 0 {
        lemma_no_overpayment_at_every_prefix(games, steps, k - 1);
        assert(steps.take(k).drop_last() =~= steps.take(k - 1));
        assert(steps.take(k).last() == steps[k - 1]);
        assert(escrow_step_ok(games[k - 1], games[k], steps[k - 1]));
    }
}

// ---------------------------------------------------------------------
// Pay-once laws: a set flag makes the second claim fail, and a failed
// claim changes nothing (each operation's contract states that an error
// leaves every record as it was).
// ---------------------------------------------------------------------

/// Law: a refund pays once. After a successful refund claim — which
/// appends the member to the refunded list and touches neither membership
/// nor status — any later claim by the same member fails as already
/// refunded, at any time.
pub proof fn lemma_refund_once(g0: Game, g1: Game, player: u64, now1: u64, now2: u64)
    requires
        spec_claim_refund(g0, player, now1) is Ok,
        g1.status == g0.status,
        g1.creator == g0.creator,
        g1.start_time == g0.start_time,
        g1.players@ == g0.players@,
        g1.refunded_players@ == g0.refunded_players@.push(player),
    ensures
        spec_claim_refund(g1, player, now2) == Err::<u64, GameError>(GameError::AlreadyRefunded),
        spec_force_refund(g1, player, now2) == Err::<u64, GameError>(GameError::AlreadyRefunded),
{
    assert(g1.refunded_players@[g0.refunded_players@.len() as int] == player);
    assert(g1.refunded_players@.contains(player));
    assert(status_refundable(g1.status));
    assert(!g0.players@.contains(player) ==> spec_claim_refund(g0, player, now1) is Err);
}

/// Law: a forced refund pays once. It flips the game to expired with
/// penalty and appends the member to the refunded list, so the same member
/// can neither force a second refund (the game is no longer waiting) nor
/// claim an ordinary one.
pub proof fn lemma_force_refund_once(g0: Game, g1: Game, player: u64, now1: u64, now2: u64)
    requires
        spec_force_refund(g0, player, now1) is Ok,
        g1.status == GameStatus::ExpiredWithPenalty,
        g1.game_started == g0.game_started,
        g1.players@ == g0.players@,
        g1.refunded_players@ == g0.refunded_players@.push(player),
    ensures
        spec_force_refund(g1, player, now2) == Err::<u64, GameError>(GameError::AlreadyRefunded),
        spec_claim_refund(g1, player, now2) == Err::<u64, GameError>(GameError::AlreadyRefunded),
{
    assert(g1.refunded_players@[g0.refunded_players@.len() as int] == player);
    assert(g1.refunded_players@.contains(player));
}

/// Law: the prize pays once. After a successful prize claim — which sets
/// the claimed flag and leaves phase, status and winner alone — every
/// later claim fails as already claimed, whoever calls it.
pub proof fn lemma_prize_claim_once(g0: Game, g1: Game, caller: u64)
    requires
        spec_claim_prize(g0, caller) is Ok,
        g1.phase3_prize_claimed,
        g1.current_phase == g0.current_phase,
        g1.status == g0.status,
        g1.phase3_winner == g0.phase3_winner,
    ensures
        forall|caller2: u64|
            spec_claim_prize(g1, caller2) == Err::<u64, GameError>(GameError::AlreadyClaimed),
{
}

/// Law: an accrued platform fee pays once. A successful collection zeroes
/// the accrual, so a second collection finds no fee, whoever calls it.
pub proof fn lemma_platform_fee_once(g0: Game, g1: Game, caller: u64)
    requires
        spec_claim_platform_fee(g0, caller) is Ok,
        g1.creator == g0.creator,
        g1.platform_fee_collected == 0,
    ensures
        forall|caller2: u64| spec_claim_platform_fee(g1, caller2) is Err,
        spec_claim_platform_fee(g1, caller) == Err::<u64, GameError>(GameError::NoFeeToCollect),
{
}

// ---------------------------------------------------------------------
// Pool conservation.
// ---------------------------------------------------------------------

/// Sum of `f` over the player records.
pub open spec fn sum_by(players: Seq<PlayerGameState>, f: spec_fn(PlayerGameState) -> int) -> int
    decreases players.len(),
{
    if players.len() == 0 {
        0
    } else {
        sum_by(players.drop_last(), f) + f(players.last())
    }
}

/// Replacing one record moves the sum by the difference at that record.
pub proof fn lemma_sum_by_update(
    players: Seq<PlayerGameState>,
    i: int,
    p1: PlayerGameState,
    f: spec_fn(PlayerGameState) -> int,
)
    requires
        0 <= i < players.len(),
    ensures
        sum_by(players.update(i, p1), f) == sum_by(players, f) - f(players[i]) + f(p1),
    decreases players.len(),
{
    let updated = players.update(i, p1);
    if i == players.len() - 1 {
        assert(updated.drop_last() =~= players.drop_last());
        assert(updated.last() == p1);
    } else {
        assert(updated.drop_last() =~= players.drop_last().update(i, p1));
        assert(updated.last() == players.last());
        lemma_sum_by_update(players.drop_last(), i, p1, f);
    }
}

/// A sum of a pointwise nonnegative `f` is at least its value at any one
/// record (and at least zero).
pub proof fn lemma_sum_by_lower(
    players: Seq<PlayerGameState>,
    i: int,
    f: spec_fn(PlayerGameState) -> int,
)
    requires
        0 <= i < players.len(),
        forall|p: PlayerGameState| #[trigger] f(p) >= 0,
    ensures
        sum_by(players, f) >= f(players[i]),
    decreases players.len(),
{
    if i == players.len() - 1 {
        lemma_sum_by_nonneg(players.drop_last(), f);
    } else {
        lemma_sum_by_lower(players.drop_last(), i, f);
    }
}

/// A sum of a pointwise nonnegative `f` is nonnegative.
pub proof fn lemma_sum_by_nonneg(
    players: Seq<PlayerGameState>,
    f: spec_fn(PlayerGameState) -> int,
)
    requires
        forall|p: PlayerGameState| #[trigger] f(p) >= 0,
    ensures
        sum_by(players, f) >= 0,
    decreases players.len(),
{
    if players.len() > 0 {
        lemma_sum_by_nonneg(players.drop_last(), f);
    }
}

/// The pool record carries exactly the aggregate of the players' active
/// allocations: each activity total is the sum of the active vectors, and
/// the participant count is the number of active players with tokens in
/// social.
pub open spec fn pool_matches(pool: GamePoolState, players: Seq<PlayerGameState>) -> bool {
    &&& pool.mining_pool_total as int == sum_by(
        players,
        |p: PlayerGameState| spec_active_contribution(p).mining as int,
    )
    &&& pool.farming_pool_total as int == sum_by(
        players,
        |p: PlayerGameState| spec_active_contribution(p).farming as int,
    )
    &&& pool.trading_pool_total as int == sum_by(
        players,
        |p: PlayerGameState| spec_active_contribution(p).trading as int,
    )
    &&& pool.research_pool_total as int == sum_by(
        players,
        |p: PlayerGameState| spec_active_contribution(p).research as int,
    )
    &&& pool.social_pool_total as int == sum_by(
        players,
        |p: PlayerGameState| spec_active_contribution(p).social as int,
    )
    &&& pool.social_pool_participants as int == sum_by(
        players,
        |p: PlayerGameState| spec_social_indicator(p),
    )
}

/// One when the record's active allocation puts tokens into social.
pub open spec fn spec_social_indicator(p: PlayerGameState) -> int {
    if p.has_active_allocation && p.allocations.social > 0 {
        1
    } else {
        0
    }
}

/// A sum of an `f` that vanishes on every record is zero.
proof fn lemma_sum_by_zero(players: Seq<PlayerGameState>, f: spec_fn(PlayerGameState) -> int)
    requires
        forall|p: PlayerGameState| #[trigger] f(p) == 0,
    ensures
        sum_by(players, f) == 0,
    decreases players.len(),
{
    if players.len() > 0 {
        lemma_sum_by_zero(players.drop_last(), f);
    }
}

/// Law, base case: a freshly zeroed pool matches any set of players none
/// of whom has an active allocation yet.
pub proof fn lemma_initial_pool_matches(pool: GamePoolState, players: Seq<PlayerGameState>)
    requires
        pool.mining_pool_total == 0,
        pool.farming_pool_total == 0,
        pool.trading_pool_total == 0,
        pool.research_pool_total == 0,
        pool.social_pool_total == 0,
        pool.social_pool_participants == 0,
        forall|i: int| 0 <= i < players.len() ==> !(#[trigger] players[i]).has_active_allocation,
    ensures
        pool_matches(pool, players),
    decreases players.len(),
{
    if players.len() == 0 {
    } else {
        lemma_initial_pool_matches(pool, players.drop_last());
    }
}

/// Law: a new player without an active allocation joins the accounting
/// without moving it.
pub proof fn lemma_pool_matches_new_player(
    pool: GamePoolState,
    players: Seq<PlayerGameState>,
    p: PlayerGameState,
)
    requires
        pool_matches(pool, players),
        !p.has_active_allocation,
    ensures
        pool_matches(pool, players.push(p)),
{
    assert(players.push(p).drop_last() =~= players);
}

/// Law: accepted allocations conserve the pool. When the pool totals equal
/// the sum of all players' current active allocations and one player's
/// submission succeeds — moving the pool exactly as `submit_allocations`'s
/// contract states — the totals equal the sum over the updated players.
/// This holds across any sequence of submissions and resubmissions, since
/// it holds step by step from the initial all-zero pool.
pub proof fn lemma_allocation_conservation(
    pool0: GamePoolState,
    pool1: GamePoolState,
    players: Seq<PlayerGameState>,
    i: int,
    p1: PlayerGameState,
    mining: u64,
    farming: u64,
    trading: u64,
    research: u64,
    social: u64,
)
    requires
        0 <= i < players.len(),
        pool_matches(pool0, players),
        p1.has_active_allocation,
        p1.allocations == (ResourceAllocations { mining, farming, trading, research, social }),
        pool1.mining_pool_total == pool0.mining_pool_total - spec_active_contribution(
            players[i],
        ).mining + mining,
        pool1.farming_pool_total == pool0.farming_pool_total - spec_active_contribution(
            players[i],
        ).farming + farming,
        pool1.trading_pool_total == pool0.trading_pool_total - spec_active_contribution(
            players[i],
        ).trading + trading,
        pool1.research_pool_total == pool0.research_pool_total - spec_active_contribution(
            players[i],
        ).research + research,
        pool1.social_pool_total == pool0.social_pool_total - spec_active_contribution(
            players[i],
        ).social + social,
        pool1.social_pool_participants as int == spec_participants_after_removal(
            players[i],
            pool0,
        ) + (if social > 0 {
            1int
        } else {
            0int
        }),
    ensures
        pool_matches(pool1, players.update(i, p1)),
{
    let f_mining = |p: PlayerGameState| spec_active_contribution(p).mining as int;
    let f_farming = |p: PlayerGameState| spec_active_contribution(p).farming as int;
    let f_trading = |p: PlayerGameState| spec_active_contribution(p).trading as int;
    let f_research = |p: PlayerGameState| spec_active_contribution(p).research as int;
    let f_social = |p: PlayerGameState| spec_active_contribution(p).social as int;
    let f_ind = |p: PlayerGameState| spec_social_indicator(p);
    lemma_sum_by_update(players, i, p1, f_mining);
    lemma_sum_by_update(players, i, p1, f_farming);
    lemma_sum_by_update(players, i, p1, f_trading);
    lemma_sum_by_update(players, i, p1, f_research);
    lemma_sum_by_update(players, i, p1, f_social);
    lemma_sum_by_update(players, i, p1, f_ind);
    // The participant count cannot saturate at zero while player `i`
    // actively participates: the count includes them.
    if players[i].has_active_allocation && players[i].allocations.social > 0 {
        assert(forall|p: PlayerGameState| #[trigger] f_ind(p) >= 0);
        lemma_sum_by_lower(players, i, f_ind);
        assert(pool0.social_pool_participants >= 1);
    }
}

// ---------------------------------------------------------------------
// Decline forcing.
// ---------------------------------------------------------------------

/// Law: five consecutive declines on a fresh pending challenge flip it to
/// `ForcedAccept`, and any further response — another decline as much as
/// an accept — fails on the status.
pub proof fn lemma_decline_forcing(
    c0: Challenge,
    opponent_state: PlayerGameState,
    responder: u64,
    accept: bool,
)
    requires
        challenge_wf(c0),
        c0.status == ChallengeStatus::Pending,
        c0.opponent_decline_count == 0,
    ensures
        ({
            let c5 = spec_challenge_after_decline(
                spec_challenge_after_decline(
                    spec_challenge_after_decline(
                        spec_challenge_after_decline(spec_challenge_after_decline(c0)),
                    ),
                ),
            );
            &&& c5.status == ChallengeStatus::ForcedAccept
            &&& spec_respond_challenge(c5, opponent_state, responder, accept) == Err::<
                (),
                GameError,
            >(GameError::InvalidChallengeStatus)
        }),
{
}

} // verus!
