use solana_survivor::errors::GameError;
use solana_survivor::game::Game;
use solana_survivor::game::GameStatus;
use solana_survivor::lifecycle::advance_phase;
use solana_survivor::lifecycle::claim_refund;
use solana_survivor::lifecycle::create_game;
use solana_survivor::lifecycle::creator_cancel_game;
use solana_survivor::lifecycle::enter_game;
use solana_survivor::lifecycle::force_refund_expired_game;
use solana_survivor::lifecycle::start_game;
use solana_survivor::registry::GameRegistry;
use solana_survivor::registry::initialize;

const CREATOR: u64 = 11;
const ALICE: u64 = 21;
const BOB: u64 = 22;
const CARA: u64 = 23;

fn new_game(entry_fee: u64, max_players: u8, start_time: u64, hours: u8) -> Game {
    let mut registry = initialize(99);
    create_game(
        &mut registry,
        String::from("arena"),
        entry_fee,
        max_players,
        start_time,
        hours,
        CREATOR,
        0,
    )
    .expect("game should be created")
}

fn full_waiting_game() -> Game {
    let mut game = new_game(100, 10, 1000, 3);
    enter_game(&mut game, CREATOR, 100).unwrap();
    enter_game(&mut game, ALICE, 100).unwrap();
    enter_game(&mut game, BOB, 100).unwrap();
    game
}

#[test]
fn errors_describe_themselves() {
    assert_eq!(GameError::InvalidMaxPlayers.as_str(), "invalid max players");
    assert_eq!(GameError::MathOverflow.as_str(), "math overflow");
    assert_ne!(
        GameError::AlreadyRefunded.as_str(),
        GameError::AlreadyClaimed.as_str()
    );
}

#[test]
fn registry_issues_sequential_ids() {
    let mut registry = initialize(42);
    assert_eq!(registry.admin, 42);
    assert_eq!(registry.next_game_id(), 0);
    assert_eq!(registry.next_game_id(), 1);
    assert_eq!(registry.game_count, 2);
    assert_eq!(registry.total_games_created, 2);
}

#[test]
fn create_game_validates_parameters() {
    let mut registry = initialize(99);
    let name = || String::from("arena");
    assert_eq!(
        create_game(&mut registry, name(), 100, 1, 1000, 3, CREATOR, 0).unwrap_err(),
        GameError::InvalidMaxPlayers
    );
    assert_eq!(
        create_game(&mut registry, name(), 100, 101, 1000, 3, CREATOR, 0).unwrap_err(),
        GameError::InvalidMaxPlayers
    );
    assert_eq!(
        create_game(&mut registry, name(), 0, 10, 1000, 3, CREATOR, 0).unwrap_err(),
        GameError::InvalidEntryFee
    );
    assert_eq!(
        create_game(&mut registry, name(), 100, 10, 50, 3, CREATOR, 50).unwrap_err(),
        GameError::InvalidStartTime
    );
    assert_eq!(
        create_game(&mut registry, name(), 100, 10, 1000, 0, CREATOR, 0).unwrap_err(),
        GameError::InvalidGameDuration
    );
    assert_eq!(
        create_game(&mut registry, name(), 100, 10, 1000, 25, CREATOR, 0).unwrap_err(),
        GameError::InvalidGameDuration
    );
    // Nothing was created by the rejected calls.
    assert_eq!(registry.game_count, 0);
}

#[test]
fn create_game_splits_duration_and_derives_requirements() {
    let game = new_game(100, 10, 1000, 3);
    assert_eq!(game.phases.phase1_duration, 3600);
    assert_eq!(game.phases.phase2_duration, 3600);
    assert_eq!(game.phases.phase3_duration, 3600);
    // With ten players and a one-hour Phase 2 the requirement lands on 4.
    assert_eq!(game.phase2_required_games, 4);
    assert_eq!(game.phase2_max_games_per_opponent, 3);
    assert_eq!(game.status, GameStatus::WaitingForPlayers);
    assert_eq!(game.expire_time, 2800);
    assert_eq!(game.prize_pool, 0);
    assert_eq!(game.escrow, 0);
}

#[test]
fn phase2_requirement_examples_by_game_size() {
    // The per-opponent cap by game size.
    assert_eq!(new_game(1, 5, 1000, 3).phase2_max_games_per_opponent, 2);
    assert_eq!(new_game(1, 20, 1000, 3).phase2_max_games_per_opponent, 3);
    assert_eq!(new_game(1, 50, 1000, 3).phase2_max_games_per_opponent, 2);
    assert_eq!(new_game(1, 100, 1000, 3).phase2_max_games_per_opponent, 1);
    // A twelve-hour game has four-hour phases: the 1.2x multiplier.
    // For 100 players: floor(log2) = 6, base 8, 8 * 6 / 5 = 9.
    assert_eq!(new_game(1, 100, 1000, 12).phase2_required_games, 9);
    // Six-hour game, two-hour phases: multiplier one; base stands: 8.
    assert_eq!(new_game(1, 100, 1000, 6).phase2_required_games, 8);
    // Small game, short phases: 3 * 4 / 5 = 2 clamps up to 3.
    assert_eq!(new_game(1, 3, 1000, 3).phase2_required_games, 3);
}

#[test]
fn enter_game_collects_fees_and_flips_when_full() {
    let mut game = new_game(100, 3, 1000, 3);
    enter_game(&mut game, ALICE, 100).unwrap();
    assert_eq!(game.prize_pool, 100);
    assert_eq!(game.escrow, 100);
    assert_eq!(game.current_players, 1);
    assert_eq!(game.status, GameStatus::WaitingForPlayers);
    assert_eq!(
        enter_game(&mut game, ALICE, 150).unwrap_err(),
        GameError::AlreadyJoined
    );
    enter_game(&mut game, BOB, 200).unwrap();
    enter_game(&mut game, CARA, 300).unwrap();
    assert_eq!(game.prize_pool, 300);
    assert_eq!(game.status, GameStatus::ReadyToStart);
    assert_eq!(
        enter_game(&mut game, 77, 400).unwrap_err(),
        GameError::GameNotOpen
    );
}

#[test]
fn enter_game_rejects_full_and_late_entries() {
    let mut game = new_game(100, 3, 1000, 3);
    assert_eq!(
        enter_game(&mut game, ALICE, 1000).unwrap_err(),
        GameError::GameExpired
    );
    enter_game(&mut game, ALICE, 100).unwrap();
    enter_game(&mut game, BOB, 100).unwrap();
    enter_game(&mut game, CARA, 100).unwrap();
    // The game flipped to ReadyToStart, so a fourth entry is not open.
    assert_eq!(
        enter_game(&mut game, 77, 100).unwrap_err(),
        GameError::GameNotOpen
    );
}

#[test]
fn enter_game_full_before_ready() {
    let mut game = new_game(100, 10, 1000, 3);
    for player in 1..=9 {
        enter_game(&mut game, 100 + player, 100).unwrap();
    }
    assert_eq!(game.current_players, 9);
    assert_eq!(game.status, GameStatus::WaitingForPlayers);
    // Force the counter to the bound through the last seat, then observe
    // that a latecomer is told the game is no longer open.
    enter_game(&mut game, 110, 100).unwrap();
    assert_eq!(game.status, GameStatus::ReadyToStart);
    assert_eq!(
        enter_game(&mut game, 111, 100).unwrap_err(),
        GameError::GameNotOpen
    );
}

#[test]
fn enter_game_overflow_aborts_without_effect() {
    let mut game = new_game(u64::MAX, 3, 1000, 3);
    enter_game(&mut game, ALICE, 100).unwrap();
    let before_players = game.current_players;
    assert_eq!(
        enter_game(&mut game, BOB, 100).unwrap_err(),
        GameError::MathOverflow
    );
    assert_eq!(game.current_players, before_players);
    assert_eq!(game.prize_pool, u64::MAX);
}

#[test]
fn start_game_checks_authority_count_and_window() {
    let mut game = full_waiting_game();
    assert_eq!(
        start_game(&mut game, ALICE, 1000).unwrap_err(),
        GameError::NotCreator
    );
    assert_eq!(
        start_game(&mut game, CREATOR, 999).unwrap_err(),
        GameError::GameNotStarted
    );
    assert_eq!(
        start_game(&mut game, CREATOR, 2801).unwrap_err(),
        GameError::StartWindowExpired
    );
    start_game(&mut game, CREATOR, 1000).unwrap();
    assert!(game.game_started);
    assert_eq!(game.status, GameStatus::InProgress);
    assert_eq!(game.current_phase, 1);
    assert_eq!(game.phase_end_time, 1000 + 3600);
    assert_eq!(game.phase_advance_deadline, 1000 + 3600 + 600);
    assert_eq!(
        start_game(&mut game, CREATOR, 1000).unwrap_err(),
        GameError::GameAlreadyStarted
    );
}

#[test]
fn start_game_needs_three_players() {
    let mut game = new_game(100, 10, 1000, 3);
    enter_game(&mut game, ALICE, 100).unwrap();
    enter_game(&mut game, BOB, 100).unwrap();
    assert_eq!(
        start_game(&mut game, CREATOR, 1000).unwrap_err(),
        GameError::NotEnoughPlayers
    );
}

#[test]
fn cancel_only_by_creator_within_window() {
    let mut game = full_waiting_game();
    assert_eq!(
        creator_cancel_game(&mut game, ALICE, 1000).unwrap_err(),
        GameError::NotCreator
    );
    assert_eq!(
        creator_cancel_game(&mut game, CREATOR, 2801).unwrap_err(),
        GameError::CancelWindowExpired
    );
    creator_cancel_game(&mut game, CREATOR, 2000).unwrap();
    assert_eq!(game.status, GameStatus::Cancelled);
}

#[test]
fn cancelled_game_refunds_each_member_once() {
    let mut game = full_waiting_game();
    creator_cancel_game(&mut game, CREATOR, 2000).unwrap();
    assert_eq!(game.escrow, 300);
    assert_eq!(claim_refund(&mut game, ALICE, 2100).unwrap(), 100);
    assert_eq!(game.escrow, 200);
    // The refunded flag is monotone: a second claim fails and moves nothing.
    let snapshot_escrow = game.escrow;
    assert_eq!(
        claim_refund(&mut game, ALICE, 2200).unwrap_err(),
        GameError::AlreadyRefunded
    );
    assert_eq!(game.escrow, snapshot_escrow);
    assert_eq!(claim_refund(&mut game, BOB, 2300).unwrap(), 100);
    assert_eq!(claim_refund(&mut game, CREATOR, 2400).unwrap(), 100);
    assert_eq!(game.escrow, 0);
    assert_eq!(
        claim_refund(&mut game, 77, 2500).unwrap_err(),
        GameError::NotInGame
    );
}

#[test]
fn refund_requires_cancelled_or_expired_game() {
    let mut game = full_waiting_game();
    assert_eq!(
        claim_refund(&mut game, ALICE, 2000).unwrap_err(),
        GameError::GameNotCancelled
    );
}

#[test]
fn force_refund_waits_for_grace_then_penalizes_creator() {
    let mut game = full_waiting_game();
    assert_eq!(
        force_refund_expired_game(&mut game, ALICE, 2799).unwrap_err(),
        GameError::RefundNotYetAvailable
    );
    assert_eq!(force_refund_expired_game(&mut game, ALICE, 2800).unwrap(), 100);
    assert_eq!(game.status, GameStatus::ExpiredWithPenalty);
    assert_eq!(game.escrow, 200);
    // The same member cannot force twice.
    assert_eq!(
        force_refund_expired_game(&mut game, ALICE, 2900).unwrap_err(),
        GameError::AlreadyRefunded
    );
    // Another member now goes through the ordinary claim; forcing is over.
    assert_eq!(
        force_refund_expired_game(&mut game, BOB, 2900).unwrap_err(),
        GameError::GameNotOpen
    );
    assert_eq!(claim_refund(&mut game, BOB, 2900).unwrap(), 100);
    // The creator forfeited their own entry.
    assert_eq!(
        claim_refund(&mut game, CREATOR, 2900).unwrap_err(),
        GameError::CreatorForfeitedFunds
    );
    assert_eq!(game.escrow, 100);
}

#[test]
fn force_refund_also_opens_when_too_few_players_gathered() {
    // Two members only: the creator should have cancelled; once the grace
    // period lapses either member forces their money back.
    let mut game = new_game(100, 10, 1000, 3);
    enter_game(&mut game, ALICE, 100).unwrap();
    enter_game(&mut game, BOB, 100).unwrap();
    assert_eq!(force_refund_expired_game(&mut game, BOB, 2800).unwrap(), 100);
    assert_eq!(game.status, GameStatus::ExpiredWithPenalty);
    assert_eq!(claim_refund(&mut game, ALICE, 2900).unwrap(), 100);
    assert_eq!(game.escrow, 0);
}

#[test]
fn force_refund_rejects_outsiders_and_started_games() {
    let mut game = full_waiting_game();
    assert_eq!(
        force_refund_expired_game(&mut game, 77, 2800).unwrap_err(),
        GameError::NotInGame
    );
    start_game(&mut game, CREATOR, 1000).unwrap();
    assert_eq!(
        force_refund_expired_game(&mut game, ALICE, 9000).unwrap_err(),
        GameError::GameAlreadyStarted
    );
}

#[test]
fn advance_phase_escalates_authority_over_time() {
    let mut game = full_waiting_game();
    assert_eq!(
        advance_phase(&mut game, CREATOR, 1000).unwrap_err(),
        GameError::GameNotStarted
    );
    start_game(&mut game, CREATOR, 1000).unwrap();
    // Phase 1 ends at 4600; the advance deadline is 5200.
    assert_eq!(
        advance_phase(&mut game, CREATOR, 4599).unwrap_err(),
        GameError::PhaseNotEnded
    );
    assert_eq!(
        advance_phase(&mut game, ALICE, 4600).unwrap_err(),
        GameError::NotAuthorizedToAdvance
    );
    advance_phase(&mut game, CREATOR, 4600).unwrap();
    assert_eq!(game.current_phase, 2);
    assert_eq!(game.phase_end_time, 4600 + 3600);
    assert_eq!(game.phase_advance_deadline, 4600 + 3600 + 600);
    // Once the buffer lapses anyone may advance.
    advance_phase(&mut game, ALICE, 8800).unwrap();
    assert_eq!(game.current_phase, 3);
    assert_eq!(game.phase_end_time, 8800 + 3600);
}
