//! Game lifecycle operations: creation, entry, start, cancellation,
//! refunds and phase advancement, with the escalating-authority rules.
//!
//! Every operation is all-or-nothing: it re-validates its preconditions
//! first and, on any error, changes no record. Fund movements are returned
//! as amounts; the game's `escrow` field is the ledger the host must mirror.

use vstd::prelude::*;
use crate::constants::GAME_START_GRACE_PERIOD;
use crate::constants::MAX_PLAYERS_ALLOWED;
use crate::constants::MIN_PLAYERS_ALLOWED;
use crate::constants::MIN_PLAYERS_TO_START;
use crate::constants::PHASE_ADVANCE_BUFFER;
use crate::errors::GameError;
use crate::game::Game;
use crate::game::GameStatus;
use crate::game::PhaseDurations;
use crate::game::config_unchanged;
use crate::game::contains_id;
use crate::game::game_wf;
use crate::game::lemma_push_distinct;
use crate::game::lemma_strict_sublist_shorter;
use crate::game::lifecycle_unchanged;
use crate::game::members_unchanged;
use crate::game::money_unchanged;
use crate::game::phase_clock_unchanged;
use crate::game::purge_unchanged;
use crate::game::spec_max_per_opponent;
use crate::game::spec_required_games;
use crate::game::status_refundable;
use crate::registry::GameRegistry;

verus! {

/// The validation `create_game` performs, in order; `None` means the game
/// is created.
pub open spec fn spec_create_error(
    registry: GameRegistry,
    entry_fee: u64,
    max_players: u8,
    start_time: u64,
    game_duration_hours: u8,
    now: u64,
) -> Option<GameError> {
    if max_players < MIN_PLAYERS_ALLOWED || max_players > MAX_PLAYERS_ALLOWED {
        Some(GameError::InvalidMaxPlayers)
    } else if entry_fee == 0 {
        Some(GameError::InvalidEntryFee)
    } else if start_time <= now {
        Some(GameError::InvalidStartTime)
    } else if game_duration_hours < 1 || game_duration_hours > 24 {
        Some(GameError::InvalidGameDuration)
    } else if start_time + GAME_START_GRACE_PERIOD > u64::MAX {
        Some(GameError::MathOverflow)
    } else if registry.game_count == u64::MAX || registry.total_games_created == u64::MAX {
        Some(GameError::MathOverflow)
    } else {
        None
    }
}

/// Duration of each of the three equal phases for a game of
/// `game_duration_hours` hours, in seconds.
pub open spec fn spec_phase_duration(game_duration_hours: u8) -> int {
    game_duration_hours * 1200
}

/// Create a game: validate the parameters, take a fresh id from the
/// registry, split the duration into three equal phases and derive the
/// Phase 2 requirements. The new game holds no players and no funds.
pub fn create_game(
    registry: &mut GameRegistry,
    name: String,
    entry_fee: u64,
    max_players: u8,
    start_time: u64,
    game_duration_hours: u8,
    creator: u64,
    now: u64,
) -> (r: Result<Game, GameError>)
    ensures
        ({
            let err = spec_create_error(
                *old(registry),
                entry_fee,
                max_players,
                start_time,
                game_duration_hours,
                now,
            );
            match r {
                Err(e) => {
                    &&& err == Some(e)
                    &&& *final(registry) == *old(registry)
                },
                Ok(g) => {
                    &&& err is None
                    &&& game_wf(g)
                    &&& final(registry).game_count == old(registry).game_count + 1
                    &&& final(registry).total_games_created == old(
                        registry,
                    ).total_games_created + 1
                    &&& final(registry).admin == old(registry).admin
                    &&& g.game_id == old(registry).game_count
                    &&& g.name == name
                    &&& g.creator == creator
                    &&& g.entry_fee == entry_fee
                    &&& g.max_players == max_players
                    &&& g.current_players == 0
                    &&& g.players@ == Seq::<u64>::empty()
                    &&& g.start_time == start_time
                    &&& g.expire_time == start_time + GAME_START_GRACE_PERIOD
                    &&& g.status == GameStatus::WaitingForPlayers
                    &&& !g.game_started
                    &&& g.prize_pool == 0
                    &&& g.escrow == 0
                    &&& g.refunded_players@ == Seq::<u64>::empty()
                    &&& g.current_phase == 0
                    &&& g.phase_start_time == 0
                    &&& g.phase_end_time == 0
                    &&& g.phase_advance_deadline == 0
                    &&& g.phases.phase1_duration == spec_phase_duration(game_duration_hours)
                    &&& g.phases.phase2_duration == spec_phase_duration(game_duration_hours)
                    &&& g.phases.phase3_duration == spec_phase_duration(game_duration_hours)
                    &&& g.phase2_required_games as int == spec_required_games(
                        max_players,
                        g.phases.phase2_duration,
                    )
                    &&& g.phase2_max_games_per_opponent as int == spec_max_per_opponent(
                        max_players,
                    )
                    &&& g.phase3_ready_deadline == 0
                    &&& g.phase3_extended_deadline == 0
                    &&& g.phase3_players_ready == 0
                    &&& !g.phase3_started
                    &&& g.phase3_winner is None
                    &&& !g.phase3_prize_claimed
                    &&& g.platform_fee_collected == 0
                },
            }
        }),
{
    if max_players < MIN_PLAYERS_ALLOWED || max_players > MAX_PLAYERS_ALLOWED {
        return Err(GameError::InvalidMaxPlayers);
    }
    if entry_fee == 0 {
        return Err(GameError::InvalidEntryFee);
    }
    if start_time <= now {
        return Err(GameError::InvalidStartTime);
    }
    if game_duration_hours < 1 || game_duration_hours > 24 {
        return Err(GameError::InvalidGameDuration);
    }
    let expire_time = match start_time.checked_add(GAME_START_GRACE_PERIOD) {
        Some(t) => t,
        None => {
            return Err(GameError::MathOverflow);
        },
    };
    if registry.game_count == u64::MAX || registry.total_games_created == u64::MAX {
        return Err(GameError::MathOverflow);
    }
    let game_id = registry.next_game_id();

    let phase_duration: u64 = (game_duration_hours as u64) * 1200;
    let mut game = Game {
        game_id,
        name,
        creator,
        entry_fee,
        max_players,
        current_players: 0,
        players: Vec::new(),
        start_time,
        expire_time,
        status: GameStatus::WaitingForPlayers,
        game_started: false,
        prize_pool: 0,
        escrow: 0,
        refunded_players: Vec::new(),
        current_phase: 0,
        phase_start_time: 0,
        phase_end_time: 0,
        phase_advance_deadline: 0,
        phases: PhaseDurations {
            phase1_duration: phase_duration,
            phase2_duration: phase_duration,
            phase3_duration: phase_duration,
        },
        phase2_required_games: 0,
        phase2_max_games_per_opponent: 0,
        phase3_ready_deadline: 0,
        phase3_extended_deadline: 0,
        phase3_players_ready: 0,
        phase3_started: false,
        phase3_winner: None,
        phase3_prize_claimed: false,
        platform_fee_collected: 0,
    };
    let (required_games, max_per_opponent) = game.calculate_phase2_requirements();
    game.phase2_required_games = required_games;
    game.phase2_max_games_per_opponent = max_per_opponent;
    Ok(game)
}

/// The validation `enter_game` performs, in order; `Ok` carries the entry
/// fee the player must have escrowed.
pub open spec fn spec_enter_game(g: Game, player: u64, now: u64) -> Result<u64, GameError> {
    if g.status != GameStatus::WaitingForPlayers {
        Err(GameError::GameNotOpen)
    } else if g.game_started {
        Err(GameError::GameAlreadyStarted)
    } else if g.current_players >= g.max_players {
        Err(GameError::GameFull)
    } else if g.players@.contains(player) {
        Err(GameError::AlreadyJoined)
    } else if now >= g.start_time {
        Err(GameError::GameExpired)
    } else if g.prize_pool + g.entry_fee > u64::MAX || g.escrow + g.entry_fee > u64::MAX {
        Err(GameError::MathOverflow)
    } else {
        Ok(g.entry_fee)
    }
}

/// A player joins an open game: their entry fee moves into the game's
/// escrow, they are appended to the member list, and a game that reaches
/// its member bound flips to `ReadyToStart`.
pub fn enter_game(game: &mut Game, player: u64, now: u64) -> (r: Result<u64, GameError>)
    requires
        game_wf(*old(game)),
    ensures
        game_wf(*final(game)),
        r == spec_enter_game(*old(game), player, now),
        r is Err ==> *final(game) == *old(game),
        r is Ok ==> {
            &&& config_unchanged(*old(game), *final(game))
            &&& phase_clock_unchanged(*old(game), *final(game))
            &&& purge_unchanged(*old(game), *final(game))
            &&& final(game).players@ == old(game).players@.push(player)
            &&& final(game).current_players == old(game).current_players + 1
            &&& final(game).prize_pool == old(game).prize_pool + old(game).entry_fee
            &&& final(game).escrow == old(game).escrow + old(game).entry_fee
            &&& final(game).refunded_players@ == old(game).refunded_players@
            &&& final(game).platform_fee_collected == old(game).platform_fee_collected
            &&& final(game).phase3_prize_claimed == old(game).phase3_prize_claimed
            &&& final(game).game_started == old(game).game_started
            &&& final(game).status == (if old(game).current_players + 1 == old(
                game,
            ).max_players {
                GameStatus::ReadyToStart
            } else {
                GameStatus::WaitingForPlayers
            })
        },
{
    if game.status != GameStatus::WaitingForPlayers {
        return Err(GameError::GameNotOpen);
    }
    if game.game_started {
        return Err(GameError::GameAlreadyStarted);
    }
    if game.current_players >= game.max_players {
        return Err(GameError::GameFull);
    }
    if contains_id(&game.players, player) {
        return Err(GameError::AlreadyJoined);
    }
    if now >= game.start_time {
        return Err(GameError::GameExpired);
    }
    let new_pool = match game.prize_pool.checked_add(game.entry_fee) {
        Some(v) => v,
        None => {
            return Err(GameError::MathOverflow);
        },
    };
    let new_escrow = match game.escrow.checked_add(game.entry_fee) {
        Some(v) => v,
        None => {
            return Err(GameError::MathOverflow);
        },
    };

    game.players.push(player);
    game.current_players = game.current_players + 1;
    game.prize_pool = new_pool;
    game.escrow = new_escrow;
    if game.current_players == game.max_players {
        game.status = GameStatus::ReadyToStart;
    }

    proof {
        let g0 = *old(game);
        let g1 = *game;
        assert(g1.players@.no_duplicates());
        assert forall|i: int| 0 <= i < g1.refunded_players@.len() implies g1.players@.contains(
            #[trigger] g1.refunded_players@[i],
        ) by {
            assert(g0.players@.contains(g0.refunded_players@[i]));
            let j = choose|j: int| 0 <= j < g0.players@.len() && g0.players@[j]
                == g0.refunded_players@[i];
            assert(g1.players@[j] == g0.refunded_players@[i]);
        }
        assert((g0.players@.len() + 1) * g0.entry_fee as int == g0.players@.len()
            * g0.entry_fee as int + g0.entry_fee as int) by (nonlinear_arith);
    }
    Ok(game.entry_fee)
}

/// The validation `start_game` performs, in order.
pub open spec fn spec_start_game(g: Game, caller: u64, now: u64) -> Result<(), GameError> {
    if g.creator != caller {
        Err(GameError::NotCreator)
    } else if g.game_started {
        Err(GameError::GameAlreadyStarted)
    } else if g.current_players < MIN_PLAYERS_TO_START {
        Err(GameError::NotEnoughPlayers)
    } else if now < g.start_time {
        Err(GameError::GameNotStarted)
    } else if now > g.start_time + GAME_START_GRACE_PERIOD {
        Err(GameError::StartWindowExpired)
    } else if now + g.phases.phase1_duration > u64::MAX || now + g.phases.phase1_duration
        + PHASE_ADVANCE_BUFFER > u64::MAX {
        Err(GameError::MathOverflow)
    } else {
        Ok(())
    }
}

/// How the phase clock is set when a game starts or a phase begins at
/// `now` with duration `duration`.
pub open spec fn phase_clock_set(g: Game, now: u64, duration: u64) -> bool {
    &&& g.phase_start_time == now
    &&& g.phase_end_time == now + duration
    &&& g.phase_advance_deadline == now + duration + PHASE_ADVANCE_BUFFER
}

/// The creator starts the game inside the grace window: the game flips to
/// `InProgress`, Phase 1 begins and its clock is set.
pub fn start_game(game: &mut Game, caller: u64, now: u64) -> (r: Result<(), GameError>)
    requires
        game_wf(*old(game)),
    ensures
        game_wf(*final(game)),
        r == spec_start_game(*old(game), caller, now),
        r is Err ==> *final(game) == *old(game),
        r is Ok ==> {
            &&& config_unchanged(*old(game), *final(game))
            &&& members_unchanged(*old(game), *final(game))
            &&& purge_unchanged(*old(game), *final(game))
            &&& money_unchanged(*old(game), *final(game))
            &&& final(game).game_started
            &&& final(game).status == GameStatus::InProgress
            &&& final(game).current_phase == 1
            &&& phase_clock_set(*final(game), now, old(game).phases.phase1_duration)
        },
{
    if game.creator != caller {
        return Err(GameError::NotCreator);
    }
    if game.game_started {
        return Err(GameError::GameAlreadyStarted);
    }
    if game.current_players < MIN_PLAYERS_TO_START {
        return Err(GameError::NotEnoughPlayers);
    }
    if now < game.start_time {
        return Err(GameError::GameNotStarted);
    }
    // `now >= start_time` held above, so the window comparison cannot wrap.
    if now - game.start_time > GAME_START_GRACE_PERIOD {
        return Err(GameError::StartWindowExpired);
    }
    let phase_end = match now.checked_add(game.phases.phase1_duration) {
        Some(t) => t,
        None => {
            return Err(GameError::MathOverflow);
        },
    };
    let advance_deadline = match phase_end.checked_add(PHASE_ADVANCE_BUFFER) {
        Some(t) => t,
        None => {
            return Err(GameError::MathOverflow);
        },
    };

    game.game_started = true;
    game.status = GameStatus::InProgress;
    game.current_phase = 1;
    game.phase_start_time = now;
    game.phase_end_time = phase_end;
    game.phase_advance_deadline = advance_deadline;
    Ok(())
}

/// The validation `creator_cancel_game` performs, in order.
pub open spec fn spec_cancel_game(g: Game, caller: u64, now: u64) -> Result<(), GameError> {
    if g.creator != caller {
        Err(GameError::NotCreator)
    } else if g.game_started {
        Err(GameError::GameAlreadyStarted)
    } else if now > g.start_time + GAME_START_GRACE_PERIOD {
        Err(GameError::CancelWindowExpired)
    } else {
        Ok(())
    }
}

/// The creator cancels a game that has not started, within the grace
/// window after the scheduled start; members may then claim refunds.
pub fn creator_cancel_game(game: &mut Game, caller: u64, now: u64) -> (r: Result<(), GameError>)
    requires
        game_wf(*old(game)),
    ensures
        game_wf(*final(game)),
        r == spec_cancel_game(*old(game), caller, now),
        r is Err ==> *final(game) == *old(game),
        r is Ok ==> {
            &&& config_unchanged(*old(game), *final(game))
            &&& members_unchanged(*old(game), *final(game))
            &&& phase_clock_unchanged(*old(game), *final(game))
            &&& purge_unchanged(*old(game), *final(game))
            &&& money_unchanged(*old(game), *final(game))
            &&& final(game).game_started == old(game).game_started
            &&& final(game).status == GameStatus::Cancelled
        },
{
    if game.creator != caller {
        return Err(GameError::NotCreator);
    }
    if game.game_started {
        return Err(GameError::GameAlreadyStarted);
    }
    let expired = match game.start_time.checked_add(GAME_START_GRACE_PERIOD) {
        Some(deadline) => now > deadline,
        None => false,
    };
    if expired {
        return Err(GameError::CancelWindowExpired);
    }
    game.status = GameStatus::Cancelled;
    Ok(())
}

/// The validation `claim_refund` performs, in order; `Ok` carries the
/// refund amount paid from escrow.
pub open spec fn spec_claim_refund(g: Game, player: u64, now: u64) -> Result<u64, GameError> {
    if !status_refundable(g.status) {
        Err(GameError::GameNotCancelled)
    } else if !g.players@.contains(player) {
        Err(GameError::NotInGame)
    } else if g.refunded_players@.contains(player) {
        Err(GameError::AlreadyRefunded)
    } else if player == g.creator && now > g.start_time + GAME_START_GRACE_PERIOD && g.status
        == GameStatus::ExpiredWithPenalty {
        Err(GameError::CreatorForfeitedFunds)
    } else {
        Ok(g.entry_fee)
    }
}

/// A member of a cancelled or expired game claims their entry fee back,
/// once; the creator forfeits theirs when the game expired with penalty
/// and the grace window has passed.
pub fn claim_refund(game: &mut Game, player: u64, now: u64) -> (r: Result<u64, GameError>)
    requires
        game_wf(*old(game)),
    ensures
        game_wf(*final(game)),
        r == spec_claim_refund(*old(game), player, now),
        r is Err ==> *final(game) == *old(game),
        r is Ok ==> {
            &&& config_unchanged(*old(game), *final(game))
            &&& members_unchanged(*old(game), *final(game))
            &&& phase_clock_unchanged(*old(game), *final(game))
            &&& purge_unchanged(*old(game), *final(game))
            &&& lifecycle_unchanged(*old(game), *final(game))
            &&& final(game).refunded_players@ == old(game).refunded_players@.push(player)
            &&& final(game).escrow == old(game).escrow - old(game).entry_fee
            &&& final(game).prize_pool == old(game).prize_pool
            &&& final(game).platform_fee_collected == old(game).platform_fee_collected
            &&& final(game).phase3_prize_claimed == old(game).phase3_prize_claimed
        },
{
    let refundable = match game.status {
        GameStatus::Cancelled => true,
        GameStatus::Expired => true,
        GameStatus::ExpiredWithPenalty => true,
        _ => false,
    };
    if !refundable {
        return Err(GameError::GameNotCancelled);
    }
    if !contains_id(&game.players, player) {
        return Err(GameError::NotInGame);
    }
    if contains_id(&game.refunded_players, player) {
        return Err(GameError::AlreadyRefunded);
    }
    if player == game.creator {
        let past_deadline = match game.start_time.checked_add(GAME_START_GRACE_PERIOD) {
            Some(deadline) => now > deadline,
            None => false,
        };
        if past_deadline && game.status == GameStatus::ExpiredWithPenalty {
            return Err(GameError::CreatorForfeitedFunds);
        }
    }

    proof {
        let g = *old(game);
        lemma_strict_sublist_shorter(g.players@, g.refunded_players@, player);
        assert(g.escrow as int == (g.players@.len() - g.refunded_players@.len())
            * g.entry_fee as int) by (nonlinear_arith)
            requires
                g.escrow as int == g.players@.len() * g.entry_fee as int
                    - g.refunded_players@.len() * g.entry_fee as int,
        ;
        assert((g.players@.len() - g.refunded_players@.len()) * g.entry_fee as int
            >= g.entry_fee as int) by (nonlinear_arith)
            requires
                g.players@.len() - g.refunded_players@.len() >= 1,
                g.entry_fee >= 1,
        ;
    }
    game.escrow = game.escrow - game.entry_fee;
    game.refunded_players.push(player);
    proof {
        let g = *old(game);
        lemma_push_distinct(g.refunded_players@, player);
        assert((g.refunded_players@.len() + 1) * g.entry_fee as int == g.refunded_players@.len()
            * g.entry_fee as int + g.entry_fee as int) by (nonlinear_arith);
        assert forall|i: int| 0 <= i < game.refunded_players@.len() implies game.players@.contains(
            #[trigger] game.refunded_players@[i],
        ) by {
            if i < g.refunded_players@.len() {
                assert(g.players@.contains(g.refunded_players@[i]));
            }
        }
    }
    Ok(game.entry_fee)
}

/// The validation `force_refund_expired_game` performs, in order; `Ok`
/// carries the refund amount paid from escrow.
pub open spec fn spec_force_refund(g: Game, player: u64, now: u64) -> Result<u64, GameError> {
    if !g.players@.contains(player) {
        Err(GameError::NotInGame)
    } else if g.refunded_players@.contains(player) {
        Err(GameError::AlreadyRefunded)
    } else if g.game_started {
        Err(GameError::GameAlreadyStarted)
    } else if g.status != GameStatus::WaitingForPlayers {
        Err(GameError::GameNotOpen)
    } else if now < g.start_time + GAME_START_GRACE_PERIOD {
        Err(GameError::RefundNotYetAvailable)
    } else {
        Ok(g.entry_fee)
    }
}

/// A member forces their refund once the grace period elapsed while the
/// game still waits for its creator to start or cancel it. The first
/// forced refund marks the game expired with penalty: the creator now
/// forfeits their own entry.
pub fn force_refund_expired_game(game: &mut Game, player: u64, now: u64) -> (r: Result<
    u64,
    GameError,
>)
    requires
        game_wf(*old(game)),
    ensures
        game_wf(*final(game)),
        r == spec_force_refund(*old(game), player, now),
        r is Err ==> *final(game) == *old(game),
        r is Ok ==> {
            &&& config_unchanged(*old(game), *final(game))
            &&& members_unchanged(*old(game), *final(game))
            &&& phase_clock_unchanged(*old(game), *final(game))
            &&& purge_unchanged(*old(game), *final(game))
            &&& final(game).refunded_players@ == old(game).refunded_players@.push(player)
            &&& final(game).escrow == old(game).escrow - old(game).entry_fee
            &&& final(game).prize_pool == old(game).prize_pool
            &&& final(game).platform_fee_collected == old(game).platform_fee_collected
            &&& final(game).phase3_prize_claimed == old(game).phase3_prize_claimed
            &&& final(game).game_started == old(game).game_started
            &&& final(game).status == GameStatus::ExpiredWithPenalty
        },
{
    if !contains_id(&game.players, player) {
        return Err(GameError::NotInGame);
    }
    if contains_id(&game.refunded_players, player) {
        return Err(GameError::AlreadyRefunded);
    }
    if game.game_started {
        return Err(GameError::GameAlreadyStarted);
    }
    if game.status != GameStatus::WaitingForPlayers {
        return Err(GameError::GameNotOpen);
    }
    let available = match game.start_time.checked_add(GAME_START_GRACE_PERIOD) {
        Some(t) => now >= t,
        None => false,
    };
    if !available {
        return Err(GameError::RefundNotYetAvailable);
    }

    proof {
        let g = *old(game);
        lemma_strict_sublist_shorter(g.players@, g.refunded_players@, player);
        assert(g.escrow as int >= g.entry_fee as int) by (nonlinear_arith)
            requires
                g.escrow as int == g.players@.len() * g.entry_fee as int
                    - g.refunded_players@.len() * g.entry_fee as int,
                g.players@.len() - g.refunded_players@.len() >= 1,
                g.entry_fee >= 1,
        ;
    }
    game.escrow = game.escrow - game.entry_fee;
    game.refunded_players.push(player);
    game.status = GameStatus::ExpiredWithPenalty;
    proof {
        let g = *old(game);
        lemma_push_distinct(g.refunded_players@, player);
        assert((g.refunded_players@.len() + 1) * g.entry_fee as int == g.refunded_players@.len()
            * g.entry_fee as int + g.entry_fee as int) by (nonlinear_arith);
        assert forall|i: int| 0 <= i < game.refunded_players@.len() implies game.players@.contains(
            #[trigger] game.refunded_players@[i],
        ) by {
            if i < g.refunded_players@.len() {
                assert(g.players@.contains(g.refunded_players@[i]));
            }
        }
    }
    Ok(game.entry_fee)
}

/// The duration the phase clock is reset with when a game moves to
/// `new_phase`.
pub open spec fn spec_next_phase_duration(g: Game, new_phase: int) -> u64 {
    if new_phase == 2 {
        g.phases.phase2_duration
    } else if new_phase == 3 {
        g.phases.phase3_duration
    } else {
        0
    }
}

/// The validation `advance_phase` performs, in order.
pub open spec fn spec_advance_phase(g: Game, caller: u64, now: u64) -> Result<(), GameError> {
    if !g.game_started {
        Err(GameError::GameNotStarted)
    } else if now < g.phase_end_time {
        Err(GameError::PhaseNotEnded)
    } else if !(g.creator == caller || now >= g.phase_advance_deadline) {
        Err(GameError::NotAuthorizedToAdvance)
    } else if g.current_phase == u8::MAX {
        Err(GameError::MathOverflow)
    } else if now + spec_next_phase_duration(g, g.current_phase + 1) + PHASE_ADVANCE_BUFFER
        > u64::MAX {
        Err(GameError::MathOverflow)
    } else {
        Ok(())
    }
}

/// Advance to the next phase once the current one ended. The creator may
/// advance immediately; anyone may once the advance deadline passed.
pub fn advance_phase(game: &mut Game, caller: u64, now: u64) -> (r: Result<(), GameError>)
    requires
        game_wf(*old(game)),
    ensures
        game_wf(*final(game)),
        r == spec_advance_phase(*old(game), caller, now),
        r is Err ==> *final(game) == *old(game),
        r is Ok ==> {
            &&& config_unchanged(*old(game), *final(game))
            &&& members_unchanged(*old(game), *final(game))
            &&& purge_unchanged(*old(game), *final(game))
            &&& money_unchanged(*old(game), *final(game))
            &&& lifecycle_unchanged(*old(game), *final(game))
            &&& final(game).current_phase == old(game).current_phase + 1
            &&& phase_clock_set(
                *final(game),
                now,
                spec_next_phase_duration(*old(game), old(game).current_phase + 1),
            )
        },
{
    if !game.game_started {
        return Err(GameError::GameNotStarted);
    }
    if now < game.phase_end_time {
        return Err(GameError::PhaseNotEnded);
    }
    let is_creator = game.creator == caller;
    let timeout_passed = now >= game.phase_advance_deadline;
    if !(is_creator || timeout_passed) {
        return Err(GameError::NotAuthorizedToAdvance);
    }
    let new_phase = match game.current_phase.checked_add(1) {
        Some(p) => p,
        None => {
            return Err(GameError::MathOverflow);
        },
    };
    let duration: u64 = if new_phase == 2 {
        game.phases.phase2_duration
    } else if new_phase == 3 {
        game.phases.phase3_duration
    } else {
        0
    };
    let phase_end = match now.checked_add(duration) {
        Some(t) => t,
        None => {
            return Err(GameError::MathOverflow);
        },
    };
    let advance_deadline = match phase_end.checked_add(PHASE_ADVANCE_BUFFER) {
        Some(t) => t,
        None => {
            return Err(GameError::MathOverflow);
        },
    };

    game.current_phase = new_phase;
    game.phase_start_time = now;
    game.phase_end_time = phase_end;
    game.phase_advance_deadline = advance_deadline;
    Ok(())
}

/// The validation `admin_start_game` performs, in order. The admin path
/// bypasses the creator check and the grace window, not the start time.
pub open spec fn spec_admin_start_game(
    g: Game,
    registry: GameRegistry,
    admin: u64,
    now: u64,
) -> Result<(), GameError> {
    if admin != registry.admin {
        Err(GameError::NotAdmin)
    } else if g.game_started {
        Err(GameError::GameAlreadyStarted)
    } else if g.current_players < MIN_PLAYERS_TO_START {
        Err(GameError::NotEnoughPlayers)
    } else if now < g.start_time {
        Err(GameError::GameNotStarted)
    } else if now + g.phases.phase1_duration + PHASE_ADVANCE_BUFFER > u64::MAX {
        Err(GameError::MathOverflow)
    } else {
        Ok(())
    }
}

/// The admin starts a game whose creator is unresponsive, any time after
/// the scheduled start.
pub fn admin_start_game(
    game: &mut Game,
    registry: &GameRegistry,
    admin: u64,
    now: u64,
) -> (r: Result<(), GameError>)
    requires
        game_wf(*old(game)),
    ensures
        game_wf(*final(game)),
        r == spec_admin_start_game(*old(game), *registry, admin, now),
        r is Err ==> *final(game) == *old(game),
        r is Ok ==> {
            &&& config_unchanged(*old(game), *final(game))
            &&& members_unchanged(*old(game), *final(game))
            &&& purge_unchanged(*old(game), *final(game))
            &&& money_unchanged(*old(game), *final(game))
            &&& final(game).game_started
            &&& final(game).status == GameStatus::InProgress
            &&& final(game).current_phase == 1
            &&& phase_clock_set(*final(game), now, old(game).phases.phase1_duration)
        },
{
    if admin != registry.admin {
        return Err(GameError::NotAdmin);
    }
    if game.game_started {
        return Err(GameError::GameAlreadyStarted);
    }
    if game.current_players < MIN_PLAYERS_TO_START {
        return Err(GameError::NotEnoughPlayers);
    }
    if now < game.start_time {
        return Err(GameError::GameNotStarted);
    }
    let phase_end = match now.checked_add(game.phases.phase1_duration) {
        Some(t) => t,
        None => {
            return Err(GameError::MathOverflow);
        },
    };
    let advance_deadline = match phase_end.checked_add(PHASE_ADVANCE_BUFFER) {
        Some(t) => t,
        None => {
            return Err(GameError::MathOverflow);
        },
    };

    game.game_started = true;
    game.status = GameStatus::InProgress;
    game.current_phase = 1;
    game.phase_start_time = now;
    game.phase_end_time = phase_end;
    game.phase_advance_deadline = advance_deadline;
    Ok(())
}

/// The validation `admin_advance_phase` performs, in order. The admin may
/// advance at any time, but only through phases 2 and 3.
pub open spec fn spec_admin_advance_phase(
    g: Game,
    registry: GameRegistry,
    admin: u64,
    now: u64,
) -> Result<(), GameError> {
    if admin != registry.admin {
        Err(GameError::NotAdmin)
    } else if !g.game_started {
        Err(GameError::GameNotStarted)
    } else if g.current_phase >= 3 {
        Err(GameError::InvalidPhase)
    } else if g.current_phase + 1 == 2 && now + g.phases.phase2_duration + PHASE_ADVANCE_BUFFER
        > u64::MAX {
        Err(GameError::MathOverflow)
    } else if g.current_phase + 1 == 3 && (now + g.phases.phase3_duration > u64::MAX || now + 900
        > u64::MAX) {
        Err(GameError::MathOverflow)
    } else {
        Ok(())
    }
}

/// The admin forces the next phase as an emergency control. Moving into
/// Phase 3 also opens a short ready window: five minutes to mark ready,
/// fifteen in all.
pub fn admin_advance_phase(
    game: &mut Game,
    registry: &GameRegistry,
    admin: u64,
    now: u64,
) -> (r: Result<(), GameError>)
    requires
        game_wf(*old(game)),
    ensures
        game_wf(*final(game)),
        r == spec_admin_advance_phase(*old(game), *registry, admin, now),
        r is Err ==> *final(game) == *old(game),
        r is Ok ==> {
            &&& config_unchanged(*old(game), *final(game))
            &&& members_unchanged(*old(game), *final(game))
            &&& money_unchanged(*old(game), *final(game))
            &&& lifecycle_unchanged(*old(game), *final(game))
            &&& final(game).current_phase == old(game).current_phase + 1
            &&& final(game).phase_start_time == now
            &&& final(game).phase3_players_ready == old(game).phase3_players_ready
            &&& final(game).phase3_started == old(game).phase3_started
            &&& final(game).phase3_winner == old(game).phase3_winner
        },
        r is Ok && old(game).current_phase == 1 ==> {
            &&& phase_clock_set(*final(game), now, old(game).phases.phase2_duration)
            &&& final(game).phase3_ready_deadline == old(game).phase3_ready_deadline
            &&& final(game).phase3_extended_deadline == old(game).phase3_extended_deadline
        },
        r is Ok && old(game).current_phase == 2 ==> {
            &&& final(game).phase_end_time == now + old(game).phases.phase3_duration
            &&& final(game).phase_advance_deadline == old(game).phase_advance_deadline
            &&& final(game).phase3_ready_deadline == now + 300
            &&& final(game).phase3_extended_deadline == now + 900
        },
{
    if admin != registry.admin {
        return Err(GameError::NotAdmin);
    }
    if !game.game_started {
        return Err(GameError::GameNotStarted);
    }
    if game.current_phase >= 3 {
        return Err(GameError::InvalidPhase);
    }
    let new_phase = game.current_phase + 1;
    if new_phase == 2 {
        let phase_end = match now.checked_add(game.phases.phase2_duration) {
            Some(t) => t,
            None => {
                return Err(GameError::MathOverflow);
            },
        };
        let advance_deadline = match phase_end.checked_add(PHASE_ADVANCE_BUFFER) {
            Some(t) => t,
            None => {
                return Err(GameError::MathOverflow);
            },
        };
        game.current_phase = new_phase;
        game.phase_start_time = now;
        game.phase_end_time = phase_end;
        game.phase_advance_deadline = advance_deadline;
    } else {
        let phase_end = match now.checked_add(game.phases.phase3_duration) {
            Some(t) => t,
            None => {
                return Err(GameError::MathOverflow);
            },
        };
        let extended_deadline = match now.checked_add(900) {
            Some(t) => t,
            None => {
                return Err(GameError::MathOverflow);
            },
        };
        game.current_phase = new_phase;
        game.phase_start_time = now;
        game.phase_end_time = phase_end;
        game.phase3_ready_deadline = now + 300;
        game.phase3_extended_deadline = extended_deadline;
    }
    Ok(())
}

} // verus!
