//! Phase 3, the purge engine: the move into Phase 3, the ready opt-in with
//! its deadline and one-time extension, winner determination with the
//! no-ready fallbacks, and the custody-releasing claims.

use vstd::prelude::*;
use crate::constants::ADMIN_SHARE_NO_READY;
use crate::constants::PHASE3_EXTENDED_WINDOW;
use crate::constants::PHASE3_READY_WINDOW;
use crate::errors::GameError;
use crate::game::Game;
use crate::game::GameStatus;
use crate::game::config_unchanged;
use crate::game::game_wf;
use crate::game::lifecycle_unchanged;
use crate::game::members_unchanged;
use crate::game::money_unchanged;
use crate::game::phase_clock_unchanged;
use crate::game::purge_unchanged;
use crate::phase3::Phase3ReadyState;
use crate::player::PlayerGameState;
use crate::registry::GameRegistry;

verus! {

/// The deadline currently gating the ready window: the extended deadline
/// once the one extension was granted, the original one before.
pub open spec fn spec_active_ready_deadline(g: Game) -> u64 {
    if g.phase3_extended_deadline > 0 {
        g.phase3_extended_deadline
    } else {
        g.phase3_ready_deadline
    }
}

/// The validation `advance_to_phase3` performs, in order.
pub open spec fn spec_advance_to_phase3(g: Game, caller: u64, now: u64) -> Result<(), GameError> {
    if g.current_phase != 2 {
        Err(GameError::InvalidPhase)
    } else if !g.game_started {
        Err(GameError::GameNotStarted)
    } else if caller != g.creator && now < g.phase_start_time + 300 {
        Err(GameError::OnlyCreatorCanAdvanceEarly)
    } else if now < g.phase_end_time {
        Err(GameError::PhaseNotEnded)
    } else if now + g.phases.phase3_duration > u64::MAX || now + PHASE3_READY_WINDOW > u64::MAX {
        Err(GameError::MathOverflow)
    } else {
        Ok(())
    }
}

/// Move from Phase 2 to Phase 3 once Phase 2 ended; a caller other than
/// the creator must wait five minutes into the phase. Opens the ready
/// window and clears the purge bookkeeping.
pub fn advance_to_phase3(game: &mut Game, caller: u64, now: u64) -> (r: Result<(), GameError>)
    requires
        game_wf(*old(game)),
    ensures
        game_wf(*final(game)),
        r == spec_advance_to_phase3(*old(game), caller, now),
        r is Err ==> *final(game) == *old(game),
        r is Ok ==> {
            &&& config_unchanged(*old(game), *final(game))
            &&& members_unchanged(*old(game), *final(game))
            &&& money_unchanged(*old(game), *final(game))
            &&& lifecycle_unchanged(*old(game), *final(game))
            &&& final(game).current_phase == 3
            &&& final(game).phase_start_time == now
            &&& final(game).phase_end_time == now + old(game).phases.phase3_duration
            &&& final(game).phase_advance_deadline == old(game).phase_advance_deadline
            &&& final(game).phase3_ready_deadline == now + PHASE3_READY_WINDOW
            &&& final(game).phase3_extended_deadline == 0
            &&& final(game).phase3_players_ready == 0
            &&& !final(game).phase3_started
            &&& final(game).phase3_winner is None
        },
{
    if game.current_phase != 2 {
        return Err(GameError::InvalidPhase);
    }
    if !game.game_started {
        return Err(GameError::GameNotStarted);
    }
    if caller != game.creator {
        let early = match game.phase_start_time.checked_add(300) {
            Some(t) => now < t,
            None => true,
        };
        if early {
            return Err(GameError::OnlyCreatorCanAdvanceEarly);
        }
    }
    if now < game.phase_end_time {
        return Err(GameError::PhaseNotEnded);
    }
    let phase_end = match now.checked_add(game.phases.phase3_duration) {
        Some(t) => t,
        None => {
            return Err(GameError::MathOverflow);
        },
    };
    let ready_deadline = match now.checked_add(PHASE3_READY_WINDOW) {
        Some(t) => t,
        None => {
            return Err(GameError::MathOverflow);
        },
    };

    game.current_phase = 3;
    game.phase_start_time = now;
    game.phase_end_time = phase_end;
    game.phase3_ready_deadline = ready_deadline;
    game.phase3_extended_deadline = 0;
    game.phase3_players_ready = 0;
    game.phase3_started = false;
    game.phase3_winner = None;
    Ok(())
}

/// The validation `mark_ready_phase3` performs, in order. A repeat call
/// from an already-ready player succeeds without counting again.
pub open spec fn spec_mark_ready(
    g: Game,
    rs: Phase3ReadyState,
    player: u64,
    now: u64,
) -> Result<(), GameError> {
    if g.current_phase != 3 {
        Err(GameError::InvalidPhase)
    } else if g.phase3_started {
        Err(GameError::Phase3AlreadyStarted)
    } else if now > spec_active_ready_deadline(g) {
        Err(GameError::ReadyDeadlineExpired)
    } else if !g.players@.contains(player) {
        Err(GameError::NotInGame)
    } else if !rs.ready && g.phase3_players_ready == u8::MAX {
        Err(GameError::MathOverflow)
    } else {
        Ok(())
    }
}

/// A member opts in to the purge before the active deadline. The first
/// call fills their ready record and counts them once; repeats are no-ops.
pub fn mark_ready_phase3(
    game: &mut Game,
    ready_state: &mut Phase3ReadyState,
    player: u64,
    now: u64,
) -> (r: Result<(), GameError>)
    requires
        game_wf(*old(game)),
    ensures
        game_wf(*final(game)),
        r == spec_mark_ready(*old(game), *old(ready_state), player, now),
        r is Err ==> *final(game) == *old(game) && *final(ready_state) == *old(ready_state),
        r is Ok && old(ready_state).ready ==> *final(game) == *old(game) && *final(ready_state)
            == *old(ready_state),
        r is Ok && !old(ready_state).ready ==> {
            &&& *final(ready_state) == (Phase3ReadyState {
                game_id: old(game).game_id,
                player,
                ready: true,
                marked_ready_at: now,
            })
            &&& config_unchanged(*old(game), *final(game))
            &&& members_unchanged(*old(game), *final(game))
            &&& money_unchanged(*old(game), *final(game))
            &&& lifecycle_unchanged(*old(game), *final(game))
            &&& phase_clock_unchanged(*old(game), *final(game))
            &&& final(game).phase3_players_ready == old(game).phase3_players_ready + 1
            &&& final(game).phase3_ready_deadline == old(game).phase3_ready_deadline
            &&& final(game).phase3_extended_deadline == old(game).phase3_extended_deadline
            &&& final(game).phase3_started == old(game).phase3_started
            &&& final(game).phase3_winner == old(game).phase3_winner
        },
{
    if game.current_phase != 3 {
        return Err(GameError::InvalidPhase);
    }
    if game.phase3_started {
        return Err(GameError::Phase3AlreadyStarted);
    }
    let deadline = if game.phase3_extended_deadline > 0 {
        game.phase3_extended_deadline
    } else {
        game.phase3_ready_deadline
    };
    if now > deadline {
        return Err(GameError::ReadyDeadlineExpired);
    }
    if !crate::game::contains_id(&game.players, player) {
        return Err(GameError::NotInGame);
    }
    if !ready_state.ready {
        let new_count = match game.phase3_players_ready.checked_add(1) {
            Some(v) => v,
            None => {
                return Err(GameError::MathOverflow);
            },
        };
        ready_state.game_id = game.game_id;
        ready_state.player = player;
        ready_state.ready = true;
        ready_state.marked_ready_at = now;
        game.phase3_players_ready = new_count;
    }
    Ok(())
}

/// How many of the given player records are eligible for the purge:
/// records of this game whose Phase 2 requirement was met.
pub open spec fn spec_eligible_count(states: Seq<PlayerGameState>, game_id: u64) -> int
    decreases states.len(),
{
    if states.len() == 0 {
        0
    } else {
        spec_eligible_count(states.drop_last(), game_id) + (if states.last().game_id == game_id
            && states.last().phase2_requirement_met {
            1int
        } else {
            0int
        })
    }
}

/// A prefix never counts more eligible records than the whole.
pub proof fn lemma_eligible_count_take_le(states: Seq<PlayerGameState>, game_id: u64, i: int)
    requires
        0 <= i <= states.len(),
    ensures
        spec_eligible_count(states.take(i), game_id) <= spec_eligible_count(states, game_id),
    decreases states.len() - i,
{
    if i == states.len() {
        assert(states.take(i) =~= states);
    } else {
        assert(states.take(i + 1).drop_last() =~= states.take(i));
        assert(states.take(i + 1).last() == states[i]);
        lemma_eligible_count_take_le(states, game_id, i + 1);
    }
}

/// Count the players eligible for the purge among the given records:
/// those of this game whose Phase 2 requirement flag is set.
pub fn count_eligible_players_for_phase3(
    player_states: &Vec<PlayerGameState>,
    game: &Game,
) -> (r: u8)
    requires
        spec_eligible_count(player_states@, game.game_id) <= u8::MAX,
    ensures
        r as int == spec_eligible_count(player_states@, game.game_id),
{
    let mut count: u8 = 0;
    let mut i: usize = 0;
    let n = player_states.len();
    proof {
        assert(player_states@.take(0int) =~= Seq::<PlayerGameState>::empty());
    }
    while i < n
        invariant
            0 <= i <= n,
            n == player_states@.len(),
            spec_eligible_count(player_states@, game.game_id) <= u8::MAX,
            count as int == spec_eligible_count(player_states@.take(i as int), game.game_id),
        decreases n - i,
    {
        proof {
            assert(player_states@.take(i + 1).drop_last() =~= player_states@.take(i as int));
            assert(player_states@.take(i + 1).last() == player_states@[i as int]);
            lemma_eligible_count_take_le(player_states@, game.game_id, i + 1);
        }
        if player_states[i].game_id == game.game_id && player_states[i].phase2_requirement_met {
            count = count + 1;
        }
        i = i + 1;
    }
    proof {
        assert(player_states@.take(n as int) =~= player_states@);
    }
    count
}

/// The first ready record of this game, scanning in order.
pub open spec fn spec_find_ready(states: Seq<Phase3ReadyState>, game_id: u64) -> Option<u64>
    decreases states.len(),
{
    if states.len() == 0 {
        None
    } else if states.first().ready && states.first().game_id == game_id {
        Some(states.first().player)
    } else {
        spec_find_ready(states.drop_first(), game_id)
    }
}

/// With no ready record of this game anywhere, the scan finds none.
proof fn lemma_find_ready_none(states: Seq<Phase3ReadyState>, game_id: u64)
    requires
        forall|j: int|
            0 <= j < states.len() ==> !((#[trigger] states[j]).ready && states[j].game_id
                == game_id),
    ensures
        spec_find_ready(states, game_id) is None,
    decreases states.len(),
{
    if states.len() > 0 {
        lemma_find_ready_none(states.drop_first(), game_id);
    }
}

/// With `i` the first position holding a ready record of this game, the
/// scan finds that record's player.
proof fn lemma_find_ready_at(states: Seq<Phase3ReadyState>, game_id: u64, i: int)
    requires
        0 <= i < states.len(),
        states[i].ready && states[i].game_id == game_id,
        forall|j: int|
            0 <= j < i ==> !((#[trigger] states[j]).ready && states[j].game_id == game_id),
    ensures
        spec_find_ready(states, game_id) == Some(states[i].player),
    decreases i,
{
    if i > 0 {
        lemma_find_ready_at(states.drop_first(), game_id, i - 1);
    }
}

/// Find the first ready player of this game among the given records.
pub fn find_ready_player(ready_states: &Vec<Phase3ReadyState>, game: &Game) -> (r: Result<
    u64,
    GameError,
>)
    ensures
        match r {
            Ok(p) => spec_find_ready(ready_states@, game.game_id) == Some(p),
            Err(e) => e == GameError::ReadyPlayerNotFound && spec_find_ready(
                ready_states@,
                game.game_id,
            ) is None,
        },
{
    let mut i: usize = 0;
    let n = ready_states.len();
    while i < n
        invariant
            0 <= i <= n,
            n == ready_states@.len(),
            forall|j: int|
                0 <= j < i ==> !((#[trigger] ready_states@[j]).ready && ready_states@[j].game_id
                    == game.game_id),
        decreases n - i,
    {
        if ready_states[i].ready && ready_states[i].game_id == game.game_id {
            proof {
                lemma_find_ready_at(ready_states@, game.game_id, i as int);
            }
            return Ok(ready_states[i].player);
        }
        i = i + 1;
    }
    proof {
        lemma_find_ready_none(ready_states@, game.game_id);
    }
    Err(GameError::ReadyPlayerNotFound)
}

/// The validation `start_phase3_game` performs, in order. The purge may
/// proceed once the active deadline passed, or early when every eligible
/// player is ready.
pub open spec fn spec_start_phase3(
    g: Game,
    ready_states: Seq<Phase3ReadyState>,
    player_states: Seq<PlayerGameState>,
    now: u64,
) -> Result<(), GameError> {
    let eligible = spec_eligible_count(player_states, g.game_id);
    let all_eligible_ready = eligible > 0 && g.phase3_players_ready == eligible;
    if g.current_phase != 3 {
        Err(GameError::InvalidPhase)
    } else if g.phase3_started {
        Err(GameError::Phase3AlreadyStarted)
    } else if now < spec_active_ready_deadline(g) && !all_eligible_ready {
        Err(GameError::ReadyPeriodNotExpired)
    } else if g.phase3_players_ready == 0 && g.phase3_extended_deadline == 0 && now
        + PHASE3_EXTENDED_WINDOW > u64::MAX {
        Err(GameError::MathOverflow)
    } else if g.phase3_players_ready == 0 {
        Ok(())
    } else if g.phase3_players_ready == 1 && spec_find_ready(ready_states, g.game_id) is None {
        Err(GameError::ReadyPlayerNotFound)
    } else if g.phase3_players_ready == 1 && g.platform_fee_collected + g.prize_pool / 100
        > u64::MAX {
        Err(GameError::MathOverflow)
    } else {
        Ok(())
    }
}

/// Start the purge, or settle it by the ready count. With nobody ready the
/// deadline is extended once, and the game ends with no winner and no fund
/// movement when the extension also lapses; one ready player wins by
/// default, accruing the one-percent platform fee; two or more ready
/// players start the purge proper.
pub fn start_phase3_game(
    game: &mut Game,
    ready_states: &Vec<Phase3ReadyState>,
    player_states: &Vec<PlayerGameState>,
    now: u64,
) -> (r: Result<(), GameError>)
    requires
        game_wf(*old(game)),
        spec_eligible_count(player_states@, old(game).game_id) <= u8::MAX,
    ensures
        game_wf(*final(game)),
        r == spec_start_phase3(*old(game), ready_states@, player_states@, now),
        r is Err ==> *final(game) == *old(game),
        r is Ok ==> {
            &&& config_unchanged(*old(game), *final(game))
            &&& members_unchanged(*old(game), *final(game))
            &&& phase_clock_unchanged(*old(game), *final(game))
            &&& final(game).game_started == old(game).game_started
            &&& final(game).phase3_ready_deadline == old(game).phase3_ready_deadline
            &&& final(game).phase3_players_ready == old(game).phase3_players_ready
            &&& final(game).escrow == old(game).escrow
            &&& final(game).prize_pool == old(game).prize_pool
            &&& final(game).refunded_players@ == old(game).refunded_players@
            &&& final(game).phase3_prize_claimed == old(game).phase3_prize_claimed
        },
        r is Ok && old(game).phase3_players_ready == 0 && old(game).phase3_extended_deadline == 0
            ==> {
            &&& final(game).phase3_extended_deadline == now + PHASE3_EXTENDED_WINDOW
            &&& final(game).status == old(game).status
            &&& final(game).phase3_started == old(game).phase3_started
            &&& final(game).phase3_winner == old(game).phase3_winner
            &&& final(game).platform_fee_collected == old(game).platform_fee_collected
        },
        r is Ok && old(game).phase3_players_ready == 0 && old(game).phase3_extended_deadline != 0
            ==> {
            &&& final(game).status == GameStatus::Completed
            &&& final(game).phase3_winner is None
            &&& final(game).phase3_started == old(game).phase3_started
            &&& final(game).phase3_extended_deadline == old(game).phase3_extended_deadline
            &&& final(game).platform_fee_collected == old(game).platform_fee_collected
        },
        r is Ok && old(game).phase3_players_ready == 1 ==> {
            &&& final(game).status == GameStatus::Completed
            &&& final(game).phase3_winner == spec_find_ready(ready_states@, old(game).game_id)
            &&& final(game).platform_fee_collected == old(game).platform_fee_collected + old(
                game,
            ).prize_pool / 100
            &&& final(game).phase3_started == old(game).phase3_started
            &&& final(game).phase3_extended_deadline == old(game).phase3_extended_deadline
        },
        r is Ok && old(game).phase3_players_ready >= 2 ==> {
            &&& final(game).phase3_started
            &&& final(game).status == old(game).status
            &&& final(game).phase3_winner == old(game).phase3_winner
            &&& final(game).phase3_extended_deadline == old(game).phase3_extended_deadline
            &&& final(game).platform_fee_collected == old(game).platform_fee_collected
        },
{
    if game.current_phase != 3 {
        return Err(GameError::InvalidPhase);
    }
    if game.phase3_started {
        return Err(GameError::Phase3AlreadyStarted);
    }
    let eligible_count = count_eligible_players_for_phase3(player_states, game);
    let all_eligible_ready = eligible_count > 0 && game.phase3_players_ready == eligible_count;
    let deadline = if game.phase3_extended_deadline > 0 {
        game.phase3_extended_deadline
    } else {
        game.phase3_ready_deadline
    };
    if now < deadline && !all_eligible_ready {
        return Err(GameError::ReadyPeriodNotExpired);
    }

    let ready_count = game.phase3_players_ready;
    if ready_count == 0 {
        if game.phase3_extended_deadline == 0 {
            let extended = match now.checked_add(PHASE3_EXTENDED_WINDOW) {
                Some(t) => t,
                None => {
                    return Err(GameError::MathOverflow);
                },
            };
            game.phase3_extended_deadline = extended;
            return Ok(());
        } else {
            game.phase3_winner = None;
            game.status = GameStatus::Completed;
            return Ok(());
        }
    }
    if ready_count == 1 {
        let ready_player = match find_ready_player(ready_states, game) {
            Ok(p) => p,
            Err(e) => {
                return Err(e);
            },
        };
        let platform_fee = game.prize_pool / 100;
        let new_fee = match game.platform_fee_collected.checked_add(platform_fee) {
            Some(v) => v,
            None => {
                return Err(GameError::MathOverflow);
            },
        };
        game.phase3_winner = Some(ready_player);
        game.status = GameStatus::Completed;
        game.platform_fee_collected = new_fee;
        return Ok(());
    }
    game.phase3_started = true;
    Ok(())
}

/// The validation `submit_phase3_winner` performs, in order.
pub open spec fn spec_submit_winner(g: Game, winner: u64) -> Result<(), GameError> {
    if g.current_phase != 3 {
        Err(GameError::InvalidPhase)
    } else if !g.phase3_started {
        Err(GameError::Phase3NotStarted)
    } else if g.phase3_winner is Some {
        Err(GameError::WinnerAlreadyDeclared)
    } else if !g.players@.contains(winner) {
        Err(GameError::NotInGame)
    } else if g.platform_fee_collected + g.prize_pool / 100 > u64::MAX {
        Err(GameError::MathOverflow)
    } else {
        Ok(())
    }
}

/// Record the winner of a running purge: the game completes and the
/// one-percent platform fee accrues. Anyone may submit; the winner must be
/// a member and none may have been declared yet.
pub fn submit_phase3_winner(game: &mut Game, winner: u64) -> (r: Result<(), GameError>)
    requires
        game_wf(*old(game)),
    ensures
        game_wf(*final(game)),
        r == spec_submit_winner(*old(game), winner),
        r is Err ==> *final(game) == *old(game),
        r is Ok ==> {
            &&& config_unchanged(*old(game), *final(game))
            &&& members_unchanged(*old(game), *final(game))
            &&& phase_clock_unchanged(*old(game), *final(game))
            &&& final(game).game_started == old(game).game_started
            &&& final(game).status == GameStatus::Completed
            &&& final(game).phase3_winner == Some(winner)
            &&& final(game).platform_fee_collected == old(game).platform_fee_collected + old(
                game,
            ).prize_pool / 100
            &&& final(game).escrow == old(game).escrow
            &&& final(game).prize_pool == old(game).prize_pool
            &&& final(game).refunded_players@ == old(game).refunded_players@
            &&& final(game).phase3_prize_claimed == old(game).phase3_prize_claimed
            &&& final(game).phase3_ready_deadline == old(game).phase3_ready_deadline
            &&& final(game).phase3_extended_deadline == old(game).phase3_extended_deadline
            &&& final(game).phase3_players_ready == old(game).phase3_players_ready
            &&& final(game).phase3_started == old(game).phase3_started
        },
{
    if game.current_phase != 3 {
        return Err(GameError::InvalidPhase);
    }
    if !game.phase3_started {
        return Err(GameError::Phase3NotStarted);
    }
    if game.phase3_winner.is_some() {
        return Err(GameError::WinnerAlreadyDeclared);
    }
    if !crate::game::contains_id(&game.players, winner) {
        return Err(GameError::NotInGame);
    }
    let platform_fee = game.prize_pool / 100;
    let new_fee = match game.platform_fee_collected.checked_add(platform_fee) {
        Some(v) => v,
        None => {
            return Err(GameError::MathOverflow);
        },
    };
    game.phase3_winner = Some(winner);
    game.status = GameStatus::Completed;
    game.platform_fee_collected = new_fee;
    Ok(())
}

/// The validation `claim_phase3_prize` performs, in order; `Ok` carries
/// the prize paid from escrow.
pub open spec fn spec_claim_prize(g: Game, caller: u64) -> Result<u64, GameError> {
    if g.current_phase != 3 {
        Err(GameError::InvalidPhase)
    } else if g.status != GameStatus::Completed {
        Err(GameError::GameNotCompleted)
    } else if g.phase3_winner is None {
        Err(GameError::NoWinnerDeclared)
    } else if g.phase3_prize_claimed {
        Err(GameError::AlreadyClaimed)
    } else if g.phase3_winner != Some(caller) {
        Err(GameError::NotWinner)
    } else if g.prize_pool <= g.platform_fee_collected {
        Err(GameError::NoPrizeToCollect)
    } else if g.escrow < g.prize_pool - g.platform_fee_collected {
        Err(GameError::MathOverflow)
    } else {
        Ok((g.prize_pool - g.platform_fee_collected) as u64)
    }
}

/// The declared winner collects the prize pool minus the accrued platform
/// fee, once: the claimed flag is set and the pool zeroed, and the escrow
/// releases exactly the prize.
pub fn claim_phase3_prize(game: &mut Game, caller: u64) -> (r: Result<u64, GameError>)
    requires
        game_wf(*old(game)),
    ensures
        game_wf(*final(game)),
        r == spec_claim_prize(*old(game), caller),
        r is Err ==> *final(game) == *old(game),
        r is Ok ==> {
            &&& config_unchanged(*old(game), *final(game))
            &&& members_unchanged(*old(game), *final(game))
            &&& phase_clock_unchanged(*old(game), *final(game))
            &&& purge_unchanged(*old(game), *final(game))
            &&& lifecycle_unchanged(*old(game), *final(game))
            &&& final(game).escrow == old(game).escrow - (old(game).prize_pool - old(
                game,
            ).platform_fee_collected)
            &&& final(game).prize_pool == 0
            &&& final(game).phase3_prize_claimed
            &&& final(game).platform_fee_collected == old(game).platform_fee_collected
            &&& final(game).refunded_players@ == old(game).refunded_players@
        },
{
    if game.current_phase != 3 {
        return Err(GameError::InvalidPhase);
    }
    if game.status != GameStatus::Completed {
        return Err(GameError::GameNotCompleted);
    }
    if game.phase3_winner.is_none() {
        return Err(GameError::NoWinnerDeclared);
    }
    if game.phase3_prize_claimed {
        return Err(GameError::AlreadyClaimed);
    }
    let declared = match game.phase3_winner {
        Some(w) => w,
        None => {
            return Err(GameError::NoWinnerDeclared);
        },
    };
    if declared != caller {
        return Err(GameError::NotWinner);
    }
    if game.prize_pool <= game.platform_fee_collected {
        return Err(GameError::NoPrizeToCollect);
    }
    let prize_amount = game.prize_pool - game.platform_fee_collected;
    if game.escrow < prize_amount {
        return Err(GameError::MathOverflow);
    }
    game.escrow = game.escrow - prize_amount;
    game.phase3_prize_claimed = true;
    game.prize_pool = 0;
    Ok(prize_amount)
}

/// The validation `claim_platform_fee` performs, in order; `Ok` carries
/// the fee paid from escrow.
pub open spec fn spec_claim_platform_fee(g: Game, caller: u64) -> Result<u64, GameError> {
    if caller != g.creator {
        Err(GameError::Unauthorized)
    } else if g.platform_fee_collected == 0 {
        Err(GameError::NoFeeToCollect)
    } else if g.escrow < g.platform_fee_collected {
        Err(GameError::MathOverflow)
    } else {
        Ok(g.platform_fee_collected)
    }
}

/// The creator collects the accrued platform fee, once per accrual: the
/// fee is zeroed and the escrow releases exactly the fee.
pub fn claim_platform_fee(game: &mut Game, caller: u64) -> (r: Result<u64, GameError>)
    requires
        game_wf(*old(game)),
    ensures
        game_wf(*final(game)),
        r == spec_claim_platform_fee(*old(game), caller),
        r is Err ==> *final(game) == *old(game),
        r is Ok ==> {
            &&& config_unchanged(*old(game), *final(game))
            &&& members_unchanged(*old(game), *final(game))
            &&& phase_clock_unchanged(*old(game), *final(game))
            &&& purge_unchanged(*old(game), *final(game))
            &&& lifecycle_unchanged(*old(game), *final(game))
            &&& final(game).escrow == old(game).escrow - old(game).platform_fee_collected
            &&& final(game).platform_fee_collected == 0
            &&& final(game).prize_pool == old(game).prize_pool
            &&& final(game).phase3_prize_claimed == old(game).phase3_prize_claimed
            &&& final(game).refunded_players@ == old(game).refunded_players@
        },
{
    if caller != game.creator {
        return Err(GameError::Unauthorized);
    }
    if game.platform_fee_collected == 0 {
        return Err(GameError::NoFeeToCollect);
    }
    let fee_amount = game.platform_fee_collected;
    if game.escrow < fee_amount {
        return Err(GameError::MathOverflow);
    }
    game.escrow = game.escrow - fee_amount;
    game.platform_fee_collected = 0;
    Ok(fee_amount)
}

/// The first player record for `p`, scanning in order; a duplicate record
/// later in the slice is ignored, as the scan of the host's records is.
pub open spec fn spec_first_state(
    states: Seq<PlayerGameState>,
    p: u64,
) -> Option<PlayerGameState>
    decreases states.len(),
{
    if states.len() == 0 {
        None
    } else if states.first().player == p {
        Some(states.first())
    } else {
        spec_first_state(states.drop_first(), p)
    }
}

proof fn lemma_first_state_none(states: Seq<PlayerGameState>, p: u64)
    requires
        forall|j: int| 0 <= j < states.len() ==> (#[trigger] states[j]).player != p,
    ensures
        spec_first_state(states, p) is None,
    decreases states.len(),
{
    if states.len() > 0 {
        lemma_first_state_none(states.drop_first(), p);
    }
}

proof fn lemma_first_state_at(states: Seq<PlayerGameState>, p: u64, i: int)
    requires
        0 <= i < states.len(),
        states[i].player == p,
        forall|j: int| 0 <= j < i ==> (#[trigger] states[j]).player != p,
    ensures
        spec_first_state(states, p) == Some(states[i]),
    decreases i,
{
    if i > 0 {
        lemma_first_state_at(states.drop_first(), p, i - 1);
    }
}

/// Whether a member is eligible for the no-ready redistribution: their
/// first player record has the Phase 2 requirement flag set.
pub open spec fn spec_member_eligible(states: Seq<PlayerGameState>, p: u64) -> bool {
    match spec_first_state(states, p) {
        Some(st) => st.phase2_requirement_met,
        None => false,
    }
}

/// The members receiving a share of the no-ready redistribution, in member
/// order: those whose record shows the Phase 2 requirement met.
pub open spec fn spec_recipients(players: Seq<u64>, states: Seq<PlayerGameState>) -> Seq<u64>
    decreases players.len(),
{
    if players.len() == 0 {
        Seq::empty()
    } else {
        let rest = spec_recipients(players.drop_last(), states);
        if spec_member_eligible(states, players.last()) {
            rest.push(players.last())
        } else {
            rest
        }
    }
}

/// Whether the first record for `p` among the given records shows the
/// Phase 2 requirement met.
fn member_eligible(states: &Vec<PlayerGameState>, p: u64) -> (b: bool)
    ensures
        b == spec_member_eligible(states@, p),
{
    let mut i: usize = 0;
    let n = states.len();
    while i < n
        invariant
            0 <= i <= n,
            n == states@.len(),
            forall|j: int| 0 <= j < i ==> (#[trigger] states@[j]).player != p,
        decreases n - i,
    {
        if states[i].player == p {
            proof {
                lemma_first_state_at(states@, p, i as int);
            }
            return states[i].phase2_requirement_met;
        }
        i = i + 1;
    }
    proof {
        lemma_first_state_none(states@, p);
    }
    false
}

/// What the no-ready close pays: the admin's quarter of the pool, the
/// per-player share of the rest, and who receives one.
#[derive(Clone, Debug)]
pub struct CloseNoReadyOutcome {
    /// A quarter of the prize pool, paid to the admin.
    pub platform_fee: u64,
    /// The even share of the rest paid to each eligible member; division
    /// dust stays in escrow.
    pub share_per_player: u64,
    /// The eligible members, in member order.
    pub recipients: Vec<u64>,
}

/// The validation `admin_close_purge_no_ready` performs, in order.
pub open spec fn spec_admin_close(
    g: Game,
    registry: GameRegistry,
    admin: u64,
    player_states: Seq<PlayerGameState>,
    now: u64,
) -> Result<(), GameError> {
    let fee = g.prize_pool * ADMIN_SHARE_NO_READY / 100;
    let recipients = spec_recipients(g.players@, player_states);
    let share = (g.prize_pool - fee) / recipients.len() as int;
    if admin != registry.admin {
        Err(GameError::NotAdmin)
    } else if g.current_phase != 3 {
        Err(GameError::InvalidPhase)
    } else if now <= g.phase3_extended_deadline {
        Err(GameError::ReadyPeriodNotExpired)
    } else if g.phase3_players_ready != 0 {
        Err(GameError::SomePlayersReady)
    } else if g.prize_pool * ADMIN_SHARE_NO_READY > u64::MAX {
        Err(GameError::MathOverflow)
    } else if recipients.len() == 0 {
        Err(GameError::NoPurgePlayersFound)
    } else if g.escrow < fee + share * recipients.len() {
        Err(GameError::MathOverflow)
    } else {
        Ok(())
    }
}

/// The admin closes a purge nobody readied for, once even the extended
/// deadline lapsed: a quarter of the pool goes to the admin and the rest
/// is split evenly among the members who met the Phase 2 requirement; the
/// escrow releases exactly what is paid.
pub fn admin_close_purge_no_ready(
    game: &mut Game,
    registry: &GameRegistry,
    admin: u64,
    player_states: &Vec<PlayerGameState>,
    now: u64,
) -> (r: Result<CloseNoReadyOutcome, GameError>)
    requires
        game_wf(*old(game)),
    ensures
        game_wf(*final(game)),
        match r {
            Err(e) => Err::<(), GameError>(e) == spec_admin_close(
                *old(game),
                *registry,
                admin,
                player_states@,
                now,
            ) && *final(game) == *old(game),
            Ok(out) => {
                let fee = old(game).prize_pool * ADMIN_SHARE_NO_READY / 100;
                let recipients = spec_recipients(old(game).players@, player_states@);
                let share = (old(game).prize_pool - fee) / recipients.len() as int;
                &&& spec_admin_close(*old(game), *registry, admin, player_states@, now) is Ok
                &&& out.platform_fee == fee
                &&& out.share_per_player == share
                &&& out.recipients@ == recipients
                &&& recipients.len() > 0
                &&& config_unchanged(*old(game), *final(game))
                &&& members_unchanged(*old(game), *final(game))
                &&& phase_clock_unchanged(*old(game), *final(game))
                &&& purge_unchanged(*old(game), *final(game))
                &&& final(game).game_started == old(game).game_started
                &&& final(game).status == GameStatus::Completed
                &&& final(game).escrow == old(game).escrow - fee - share * recipients.len()
                &&& final(game).prize_pool == old(game).prize_pool
                &&& final(game).platform_fee_collected == fee
                &&& final(game).phase3_prize_claimed == old(game).phase3_prize_claimed
                &&& final(game).refunded_players@ == old(game).refunded_players@
            },
        },
{
    if admin != registry.admin {
        return Err(GameError::NotAdmin);
    }
    if game.current_phase != 3 {
        return Err(GameError::InvalidPhase);
    }
    if now <= game.phase3_extended_deadline {
        return Err(GameError::ReadyPeriodNotExpired);
    }
    if game.phase3_players_ready != 0 {
        return Err(GameError::SomePlayersReady);
    }
    let scaled = match game.prize_pool.checked_mul(ADMIN_SHARE_NO_READY) {
        Some(v) => v,
        None => {
            return Err(GameError::MathOverflow);
        },
    };
    let platform_fee = scaled / 100;
    proof {
        assert(game.prize_pool * ADMIN_SHARE_NO_READY <= game.prize_pool * 100);
        vstd::arithmetic::div_mod::lemma_div_is_ordered(
            game.prize_pool * ADMIN_SHARE_NO_READY,
            game.prize_pool * 100,
            100,
        );
        vstd::arithmetic::div_mod::lemma_div_multiples_vanish(game.prize_pool as int, 100);
    }
    let player_share_total = game.prize_pool - platform_fee;

    let mut recipients: Vec<u64> = Vec::new();
    let mut i: usize = 0;
    let n = game.players.len();
    proof {
        assert(game.players@.take(0int) =~= Seq::<u64>::empty());
    }
    while i < n
        invariant
            0 <= i <= n,
            n == game.players@.len(),
            *game == *old(game),
            recipients@ == spec_recipients(game.players@.take(i as int), player_states@),
        decreases n - i,
    {
        proof {
            assert(game.players@.take(i + 1).drop_last() =~= game.players@.take(i as int));
            assert(game.players@.take(i + 1).last() == game.players@[i as int]);
        }
        let p = game.players[i];
        if member_eligible(player_states, p) {
            recipients.push(p);
        }
        i = i + 1;
    }
    proof {
        assert(game.players@.take(n as int) =~= game.players@);
    }

    if recipients.len() == 0 {
        return Err(GameError::NoPurgePlayersFound);
    }
    let share_per_player = player_share_total / (recipients.len() as u64);
    proof {
        vstd::arithmetic::div_mod::lemma_fundamental_div_mod(
            player_share_total as int,
            recipients.len() as int,
        );
    }
    let total_out: u128 = platform_fee as u128 + (share_per_player as u128) * (recipients.len()
        as u128);
    if (game.escrow as u128) < total_out {
        return Err(GameError::MathOverflow);
    }
    game.escrow = game.escrow - (total_out as u64);
    game.status = GameStatus::Completed;
    game.platform_fee_collected = platform_fee;
    Ok(CloseNoReadyOutcome { platform_fee, share_per_player, recipients })
}

} // verus!
