use solana_survivor::errors::GameError;
use solana_survivor::game::Game;
use solana_survivor::game::GameStatus;
use solana_survivor::lifecycle::admin_advance_phase;
use solana_survivor::lifecycle::admin_start_game;
use solana_survivor::lifecycle::advance_phase;
use solana_survivor::lifecycle::create_game;
use solana_survivor::lifecycle::enter_game;
use solana_survivor::lifecycle::start_game;
use solana_survivor::phase1::initialize_player_state;
use solana_survivor::phase3::Phase3ReadyState;
use solana_survivor::player::PlayerGameState;
use solana_survivor::purge::admin_close_purge_no_ready;
use solana_survivor::purge::advance_to_phase3;
use solana_survivor::purge::claim_phase3_prize;
use solana_survivor::purge::claim_platform_fee;
use solana_survivor::purge::count_eligible_players_for_phase3;
use solana_survivor::purge::find_ready_player;
use solana_survivor::purge::mark_ready_phase3;
use solana_survivor::purge::start_phase3_game;
use solana_survivor::purge::submit_phase3_winner;
use solana_survivor::registry::GameRegistry;
use solana_survivor::registry::initialize;

const ADMIN: u64 = 99;
const CREATOR: u64 = 11;
const ALICE: u64 = 21;
const BOB: u64 = 22;

fn fresh_ready_record(game: &Game, player: u64) -> Phase3ReadyState {
    Phase3ReadyState {
        game_id: game.game_id,
        player,
        ready: false,
        marked_ready_at: 0,
    }
}

/// A game in Phase 2 whose phase ends at 8200, with the registry.
fn phase2_game() -> (GameRegistry, Game) {
    let mut registry = initialize(ADMIN);
    let mut game = create_game(
        &mut registry,
        String::from("arena"),
        100,
        10,
        1000,
        3,
        CREATOR,
        0,
    )
    .unwrap();
    enter_game(&mut game, CREATOR, 100).unwrap();
    enter_game(&mut game, ALICE, 100).unwrap();
    enter_game(&mut game, BOB, 100).unwrap();
    start_game(&mut game, CREATOR, 1000).unwrap();
    advance_phase(&mut game, CREATOR, 4600).unwrap();
    (registry, game)
}

/// The game moved into Phase 3 at 8200: ready deadline 10000.
fn phase3_game() -> (GameRegistry, Game) {
    let (registry, mut game) = phase2_game();
    advance_to_phase3(&mut game, CREATOR, 8200).unwrap();
    (registry, game)
}

/// Player states for the three members with the requirement flag set.
fn eligible_states(game: &Game) -> Vec<PlayerGameState> {
    [CREATOR, ALICE, BOB]
        .iter()
        .map(|p| {
            let mut ps = initialize_player_state(game, *p, 1000).unwrap();
            ps.phase2_requirement_met = true;
            ps
        })
        .collect()
}

#[test]
fn advance_to_phase3_gates_time_and_authority() {
    let (_registry, mut game) = phase2_game();
    // Phase 2 started at 4600; a stranger must wait five minutes into it.
    assert_eq!(
        advance_to_phase3(&mut game, ALICE, 4700).unwrap_err(),
        GameError::OnlyCreatorCanAdvanceEarly
    );
    assert_eq!(
        advance_to_phase3(&mut game, CREATOR, 8199).unwrap_err(),
        GameError::PhaseNotEnded
    );
    advance_to_phase3(&mut game, CREATOR, 8200).unwrap();
    assert_eq!(game.current_phase, 3);
    assert_eq!(game.phase3_ready_deadline, 8200 + 1800);
    assert_eq!(game.phase3_extended_deadline, 0);
    assert_eq!(game.phase3_players_ready, 0);
    assert!(!game.phase3_started);
    assert_eq!(
        advance_to_phase3(&mut game, CREATOR, 8200).unwrap_err(),
        GameError::InvalidPhase
    );
}

#[test]
fn marking_ready_counts_each_member_once() {
    let (_registry, mut game) = phase3_game();
    let mut alice_record = fresh_ready_record(&game, ALICE);
    let mut stranger_record = fresh_ready_record(&game, 77);
    assert_eq!(
        mark_ready_phase3(&mut game, &mut stranger_record, 77, 8300).unwrap_err(),
        GameError::NotInGame
    );
    mark_ready_phase3(&mut game, &mut alice_record, ALICE, 8300).unwrap();
    assert!(alice_record.ready);
    assert_eq!(alice_record.marked_ready_at, 8300);
    assert_eq!(game.phase3_players_ready, 1);
    // The repeat call is an accepted no-op.
    mark_ready_phase3(&mut game, &mut alice_record, ALICE, 8400).unwrap();
    assert_eq!(game.phase3_players_ready, 1);
    assert_eq!(alice_record.marked_ready_at, 8300);
    // Past the deadline nobody may opt in.
    let mut bob_record = fresh_ready_record(&game, BOB);
    assert_eq!(
        mark_ready_phase3(&mut game, &mut bob_record, BOB, 10_001).unwrap_err(),
        GameError::ReadyDeadlineExpired
    );
}

#[test]
fn eligibility_count_and_ready_scan() {
    let (_registry, game) = phase3_game();
    let mut states = eligible_states(&game);
    states[2].phase2_requirement_met = false;
    assert_eq!(count_eligible_players_for_phase3(&states, &game), 2);
    // A record of another game does not count.
    states[1].game_id = game.game_id + 1;
    assert_eq!(count_eligible_players_for_phase3(&states, &game), 1);

    let records = vec![
        Phase3ReadyState { game_id: game.game_id, player: ALICE, ready: false, marked_ready_at: 0 },
        Phase3ReadyState { game_id: game.game_id + 1, player: 77, ready: true, marked_ready_at: 0 },
        Phase3ReadyState { game_id: game.game_id, player: BOB, ready: true, marked_ready_at: 0 },
    ];
    assert_eq!(find_ready_player(&records, &game).unwrap(), BOB);
    assert_eq!(
        find_ready_player(&records[..2].to_vec(), &game).unwrap_err(),
        GameError::ReadyPlayerNotFound
    );
}

#[test]
fn purge_with_no_ready_players_extends_once_then_ends_without_moving_funds() {
    let (_registry, mut game) = phase3_game();
    let states = eligible_states(&game);
    let records: Vec<Phase3ReadyState> = Vec::new();
    assert_eq!(
        start_phase3_game(&mut game, &records, &states, 9000).unwrap_err(),
        GameError::ReadyPeriodNotExpired
    );
    let escrow_before = game.escrow;
    // First deadline lapse with zero ready: extend by one hour.
    start_phase3_game(&mut game, &records, &states, 10_000).unwrap();
    assert_eq!(game.phase3_extended_deadline, 10_000 + 3600);
    assert_eq!(game.status, GameStatus::InProgress);
    // Second lapse with still zero ready: the game ends with no winner.
    start_phase3_game(&mut game, &records, &states, 13_600).unwrap();
    assert_eq!(game.status, GameStatus::Completed);
    assert_eq!(game.phase3_winner, None);
    assert_eq!(game.escrow, escrow_before);
    assert_eq!(game.platform_fee_collected, 0);
    // No winner was declared, so nothing can be claimed.
    assert_eq!(
        claim_phase3_prize(&mut game, ALICE).unwrap_err(),
        GameError::NoWinnerDeclared
    );
    assert_eq!(
        claim_platform_fee(&mut game, CREATOR).unwrap_err(),
        GameError::NoFeeToCollect
    );
}

#[test]
fn purge_with_one_ready_player_wins_by_default_and_fee_pays_once() {
    let (_registry, mut game) = phase3_game();
    let states = eligible_states(&game);
    let mut alice_record = fresh_ready_record(&game, ALICE);
    mark_ready_phase3(&mut game, &mut alice_record, ALICE, 8300).unwrap();
    let records = vec![alice_record];
    start_phase3_game(&mut game, &records, &states, 10_000).unwrap();
    assert_eq!(game.status, GameStatus::Completed);
    assert_eq!(game.phase3_winner, Some(ALICE));
    assert!(!game.phase3_started);
    // The one-percent platform fee accrued: 300 / 100.
    assert_eq!(game.platform_fee_collected, 3);
    assert_eq!(
        claim_platform_fee(&mut game, ALICE).unwrap_err(),
        GameError::Unauthorized
    );
    // The default winner collects the pool minus the fee.
    assert_eq!(claim_phase3_prize(&mut game, ALICE).unwrap(), 297);
    assert_eq!(claim_platform_fee(&mut game, CREATOR).unwrap(), 3);
    assert_eq!(game.platform_fee_collected, 0);
    assert_eq!(game.escrow, 0);
    // Once and only once.
    assert_eq!(
        claim_platform_fee(&mut game, CREATOR).unwrap_err(),
        GameError::NoFeeToCollect
    );
}

#[test]
fn an_early_fee_claim_cannot_make_the_prize_overdraw_the_escrow() {
    let (_registry, mut game) = phase3_game();
    let states = eligible_states(&game);
    let mut alice_record = fresh_ready_record(&game, ALICE);
    mark_ready_phase3(&mut game, &mut alice_record, ALICE, 8300).unwrap();
    let records = vec![alice_record];
    start_phase3_game(&mut game, &records, &states, 10_000).unwrap();
    // The creator collects the fee before the winner claimed; the accrual
    // is zeroed, so the prize formula now asks for the whole pool, which
    // the escrow no longer holds. The claim aborts instead of over-paying.
    assert_eq!(claim_platform_fee(&mut game, CREATOR).unwrap(), 3);
    assert_eq!(game.escrow, 297);
    assert_eq!(
        claim_phase3_prize(&mut game, ALICE).unwrap_err(),
        GameError::MathOverflow
    );
    assert_eq!(game.escrow, 297);
    assert_eq!(game.prize_pool, 300);
}

#[test]
fn purge_with_enough_ready_players_runs_and_pays_the_winner_once() {
    let (_registry, mut game) = phase3_game();
    let states = eligible_states(&game);
    let mut r1 = fresh_ready_record(&game, ALICE);
    let mut r2 = fresh_ready_record(&game, BOB);
    mark_ready_phase3(&mut game, &mut r1, ALICE, 8300).unwrap();
    mark_ready_phase3(&mut game, &mut r2, BOB, 8300).unwrap();
    let records = vec![r1, r2];
    assert_eq!(
        submit_phase3_winner(&mut game, ALICE).unwrap_err(),
        GameError::Phase3NotStarted
    );
    start_phase3_game(&mut game, &records, &states, 10_000).unwrap();
    assert!(game.phase3_started);
    assert_eq!(game.status, GameStatus::InProgress);
    assert_eq!(
        start_phase3_game(&mut game, &records, &states, 10_000).unwrap_err(),
        GameError::Phase3AlreadyStarted
    );
    assert_eq!(
        submit_phase3_winner(&mut game, 77).unwrap_err(),
        GameError::NotInGame
    );
    submit_phase3_winner(&mut game, BOB).unwrap();
    assert_eq!(game.status, GameStatus::Completed);
    assert_eq!(game.phase3_winner, Some(BOB));
    assert_eq!(game.platform_fee_collected, 3);
    assert_eq!(
        submit_phase3_winner(&mut game, ALICE).unwrap_err(),
        GameError::WinnerAlreadyDeclared
    );
    assert_eq!(
        claim_phase3_prize(&mut game, ALICE).unwrap_err(),
        GameError::NotWinner
    );
    assert_eq!(claim_phase3_prize(&mut game, BOB).unwrap(), 297);
    assert_eq!(game.prize_pool, 0);
    assert!(game.phase3_prize_claimed);
    assert_eq!(game.escrow, 3);
    assert_eq!(
        claim_phase3_prize(&mut game, BOB).unwrap_err(),
        GameError::AlreadyClaimed
    );
    assert_eq!(claim_platform_fee(&mut game, CREATOR).unwrap(), 3);
    assert_eq!(game.escrow, 0);
}

#[test]
fn purge_can_start_early_when_every_eligible_player_is_ready() {
    let (_registry, mut game) = phase3_game();
    let mut states = eligible_states(&game);
    // Only Alice and Bob are eligible; both ready before the deadline.
    states[0].phase2_requirement_met = false;
    let mut r1 = fresh_ready_record(&game, ALICE);
    let mut r2 = fresh_ready_record(&game, BOB);
    mark_ready_phase3(&mut game, &mut r1, ALICE, 8300).unwrap();
    mark_ready_phase3(&mut game, &mut r2, BOB, 8300).unwrap();
    let records = vec![r1, r2];
    start_phase3_game(&mut game, &records, &states, 8400).unwrap();
    assert!(game.phase3_started);
}

#[test]
fn admin_start_bypasses_the_window_but_not_the_start_time() {
    let mut registry = initialize(ADMIN);
    let mut game = create_game(
        &mut registry,
        String::from("arena"),
        100,
        10,
        1000,
        3,
        CREATOR,
        0,
    )
    .unwrap();
    enter_game(&mut game, CREATOR, 100).unwrap();
    enter_game(&mut game, ALICE, 100).unwrap();
    enter_game(&mut game, BOB, 100).unwrap();
    assert_eq!(
        admin_start_game(&mut game, &registry, CREATOR, 5000).unwrap_err(),
        GameError::NotAdmin
    );
    assert_eq!(
        admin_start_game(&mut game, &registry, ADMIN, 999).unwrap_err(),
        GameError::GameNotStarted
    );
    // Far past the thirty-minute window the admin may still start.
    admin_start_game(&mut game, &registry, ADMIN, 5000).unwrap();
    assert_eq!(game.status, GameStatus::InProgress);
    assert_eq!(game.current_phase, 1);
    assert_eq!(game.phase_end_time, 5000 + 3600);
}

#[test]
fn admin_advance_resets_the_clock_from_phase_one() {
    let mut registry = initialize(ADMIN);
    let mut game = create_game(
        &mut registry,
        String::from("arena"),
        100,
        10,
        1000,
        3,
        CREATOR,
        0,
    )
    .unwrap();
    enter_game(&mut game, CREATOR, 100).unwrap();
    enter_game(&mut game, ALICE, 100).unwrap();
    enter_game(&mut game, BOB, 100).unwrap();
    start_game(&mut game, CREATOR, 1000).unwrap();
    // Mid-phase, long before the phase end.
    admin_advance_phase(&mut game, &registry, ADMIN, 2000).unwrap();
    assert_eq!(game.current_phase, 2);
    assert_eq!(game.phase_start_time, 2000);
    assert_eq!(game.phase_end_time, 2000 + 3600);
    assert_eq!(game.phase_advance_deadline, 2000 + 3600 + 600);
}

#[test]
fn admin_advance_forces_phases_with_short_ready_windows() {
    let (registry, mut game) = phase2_game();
    assert_eq!(
        admin_advance_phase(&mut game, &registry, CREATOR, 5000).unwrap_err(),
        GameError::NotAdmin
    );
    // The admin needs no phase-end wait.
    admin_advance_phase(&mut game, &registry, ADMIN, 5000).unwrap();
    assert_eq!(game.current_phase, 3);
    assert_eq!(game.phase3_ready_deadline, 5000 + 300);
    assert_eq!(game.phase3_extended_deadline, 5000 + 900);
    assert_eq!(
        admin_advance_phase(&mut game, &registry, ADMIN, 5000).unwrap_err(),
        GameError::InvalidPhase
    );
}

#[test]
fn admin_close_splits_the_pool_among_eligible_members() {
    let (registry, mut game) = phase3_game();
    let states = eligible_states(&game);
    assert_eq!(
        admin_close_purge_no_ready(&mut game, &registry, CREATOR, &states, 20_000).unwrap_err(),
        GameError::NotAdmin
    );
    // The extended deadline is still zero, so any positive time is past it;
    // but a ready player blocks redistribution.
    let mut r1 = fresh_ready_record(&game, ALICE);
    mark_ready_phase3(&mut game, &mut r1, ALICE, 8300).unwrap();
    assert_eq!(
        admin_close_purge_no_ready(&mut game, &registry, ADMIN, &states, 20_000).unwrap_err(),
        GameError::SomePlayersReady
    );
    // Rebuild the situation without ready players.
    let (registry, mut game) = phase3_game();
    let outcome = admin_close_purge_no_ready(&mut game, &registry, ADMIN, &states, 20_000).unwrap();
    // A quarter of 300 to the admin, the rest split three ways.
    assert_eq!(outcome.platform_fee, 75);
    assert_eq!(outcome.share_per_player, 75);
    assert_eq!(outcome.recipients, vec![CREATOR, ALICE, BOB]);
    assert_eq!(game.status, GameStatus::Completed);
    assert_eq!(game.platform_fee_collected, 75);
    assert_eq!(game.escrow, 0);
}

#[test]
fn admin_close_needs_an_eligible_member() {
    let (registry, mut game) = phase3_game();
    let mut states = eligible_states(&game);
    for ps in states.iter_mut() {
        ps.phase2_requirement_met = false;
    }
    assert_eq!(
        admin_close_purge_no_ready(&mut game, &registry, ADMIN, &states, 20_000).unwrap_err(),
        GameError::NoPurgePlayersFound
    );
    assert_eq!(game.status, GameStatus::InProgress);
}
