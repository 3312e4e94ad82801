use solana_survivor::challenge::MiniGameType;
use solana_survivor::errors::GameError;
use solana_survivor::game::GameStatus;
use solana_survivor::lifecycle::advance_phase;
use solana_survivor::lifecycle::create_game;
use solana_survivor::lifecycle::enter_game;
use solana_survivor::lifecycle::start_game;
use solana_survivor::phase1::claim_phase_end_rewards;
use solana_survivor::phase1::claim_rewards;
use solana_survivor::phase1::initialize_player_state;
use solana_survivor::phase1::initialize_pool_state;
use solana_survivor::phase1::submit_allocations;
use solana_survivor::phase2::claim_mini_game_win;
use solana_survivor::phase2::create_challenge;
use solana_survivor::phase2::ready_for_game;
use solana_survivor::phase2::respond_challenge;
use solana_survivor::phase2::start_mini_game;
use solana_survivor::phase3::Phase3ReadyState;
use solana_survivor::purge::advance_to_phase3;
use solana_survivor::purge::claim_phase3_prize;
use solana_survivor::purge::claim_platform_fee;
use solana_survivor::purge::mark_ready_phase3;
use solana_survivor::purge::start_phase3_game;
use solana_survivor::purge::submit_phase3_winner;
use solana_survivor::registry::initialize;

const ADMIN: u64 = 99;
const ANA: u64 = 1;
const BEN: u64 = 2;
const CHO: u64 = 3;

/// The whole life of one game: three players escrow 100 each, manage
/// resources in Phase 1, duel in Phase 2, and the purge pays the winner
/// the pool minus the one-percent fee, exactly once.
#[test]
fn a_game_runs_from_creation_to_the_prize() {
    let mut registry = initialize(ADMIN);
    // Created at 0 for a start at 1000, fee 100, up to 3 players, 3 hours.
    let mut game = create_game(
        &mut registry,
        String::from("survivor"),
        100,
        3,
        1000,
        3,
        ANA,
        0,
    )
    .unwrap();
    // Three one-hour phases, and the small-game requirement of 3 games.
    assert_eq!(game.phases.phase1_duration, 3600);
    assert_eq!(game.phase2_required_games, 3);
    assert_eq!(game.phase2_max_games_per_opponent, 2);

    enter_game(&mut game, ANA, 100).unwrap();
    enter_game(&mut game, BEN, 200).unwrap();
    enter_game(&mut game, CHO, 300).unwrap();
    assert_eq!(game.prize_pool, 300);
    assert_eq!(game.escrow, 300);
    assert_eq!(game.status, GameStatus::ReadyToStart);

    start_game(&mut game, ANA, 1000).unwrap();
    assert_eq!(game.current_phase, 1);

    // Phase 1: everyone gets 1000 virtual tokens and allocates them.
    let mut ana = initialize_player_state(&game, ANA, 1000).unwrap();
    let mut ben = initialize_player_state(&game, BEN, 1000).unwrap();
    let mut cho = initialize_player_state(&game, CHO, 1000).unwrap();
    let mut pool = initialize_pool_state(&game, 1000).unwrap();
    submit_allocations(&game, &mut ana, &mut pool, 0, 1000, 0, 0, 0).unwrap();
    submit_allocations(&game, &mut ben, &mut pool, 1000, 0, 0, 0, 0).unwrap();
    submit_allocations(&game, &mut cho, &mut pool, 0, 0, 0, 0, 1000).unwrap();
    assert_eq!(pool.farming_pool_total, 1000);
    assert_eq!(pool.social_pool_participants, 1);
    // Ana farms spring for the full hour: 1000 * 10 * 30 tokens.
    claim_rewards(&game, &mut ana, &pool, 4600).unwrap();
    assert_eq!(ana.virtual_balance, 1000 + 300_000);

    // Phase 2: six duels with a bet of 10 give everyone 4 games, enough
    // for the requirement of 3.
    advance_phase(&mut game, ANA, 4600).unwrap();
    assert_eq!(game.current_phase, 2);
    let pairs: [(u64, u64); 6] = [
        (ANA, BEN),
        (BEN, CHO),
        (CHO, ANA),
        (ANA, BEN),
        (BEN, CHO),
        (CHO, ANA),
    ];
    for (round, (challenger, opponent)) in pairs.iter().enumerate() {
        let timestamp = 5000 + round as u64;
        let (cs, os) = (*challenger, *opponent);
        // Split the borrows per round to keep the host code simple.
        let mut states = [&mut ana, &mut ben, &mut cho];
        let ci = (cs - 1) as usize;
        let oi = (os - 1) as usize;
        let c_state: solana_survivor::player::PlayerGameState = (*states[ci]).clone();
        let mut challenge =
            create_challenge(&game, &c_state, cs, os, timestamp, 10, MiniGameType::SpeedTrading)
                .unwrap();
        let o_state: solana_survivor::player::PlayerGameState = (*states[oi]).clone();
        respond_challenge(&mut challenge, &o_state, os, true, timestamp).unwrap();
        ready_for_game(&mut challenge, cs).unwrap();
        start_mini_game(&mut challenge, timestamp).unwrap();
        // The challenger always wins this season.
        let (wi, li) = (ci, oi);
        let (left, right) = if wi < li { (wi, li) } else { (li, wi) };
        let (first, second) = states.split_at_mut(right);
        let (winner_state, loser_state) = if wi < li {
            (&mut *first[left], &mut *second[0])
        } else {
            (&mut *second[0], &mut *first[left])
        };
        claim_mini_game_win(&mut challenge, winner_state, loser_state, cs).unwrap();
    }
    assert_eq!(ana.phase2_games_played, 4);
    assert_eq!(ben.phase2_games_played, 4);
    assert_eq!(cho.phase2_games_played, 4);

    // Phase 3: settle the requirement, everyone readies, the purge runs.
    advance_to_phase3(&mut game, ANA, 8200).unwrap();
    claim_phase_end_rewards(&game, &mut ana).unwrap();
    claim_phase_end_rewards(&game, &mut ben).unwrap();
    claim_phase_end_rewards(&game, &mut cho).unwrap();
    assert!(ana.phase2_requirement_met);
    assert!(ben.phase2_requirement_met);
    assert!(cho.phase2_requirement_met);
    assert!(!ana.phase2_penalty_applied);

    let mut records = vec![
        Phase3ReadyState { game_id: game.game_id, player: ANA, ready: false, marked_ready_at: 0 },
        Phase3ReadyState { game_id: game.game_id, player: BEN, ready: false, marked_ready_at: 0 },
        Phase3ReadyState { game_id: game.game_id, player: CHO, ready: false, marked_ready_at: 0 },
    ];
    mark_ready_phase3(&mut game, &mut records[0], ANA, 8300).unwrap();
    mark_ready_phase3(&mut game, &mut records[1], BEN, 8300).unwrap();
    mark_ready_phase3(&mut game, &mut records[2], CHO, 8300).unwrap();
    assert_eq!(game.phase3_players_ready, 3);

    let states = vec![ana.clone(), ben.clone(), cho.clone()];
    // Everyone eligible is ready, so the purge starts before the deadline.
    start_phase3_game(&mut game, &records, &states, 8400).unwrap();
    assert!(game.phase3_started);

    submit_phase3_winner(&mut game, CHO).unwrap();
    assert_eq!(game.status, GameStatus::Completed);
    assert_eq!(game.platform_fee_collected, 3);

    // The winner collects 300 - 3, exactly once.
    assert_eq!(claim_phase3_prize(&mut game, CHO).unwrap(), 297);
    assert_eq!(game.escrow, 3);
    assert_eq!(
        claim_phase3_prize(&mut game, CHO).unwrap_err(),
        GameError::AlreadyClaimed
    );
    assert_eq!(claim_platform_fee(&mut game, ANA).unwrap(), 3);
    assert_eq!(game.escrow, 0);
    assert_eq!(
        claim_platform_fee(&mut game, ANA).unwrap_err(),
        GameError::NoFeeToCollect
    );
}
