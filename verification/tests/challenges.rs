use solana_survivor::challenge::Challenge;
use solana_survivor::challenge::ChallengeStatus;
use solana_survivor::challenge::MiniGameType;
use solana_survivor::errors::GameError;
use solana_survivor::game::Game;
use solana_survivor::lifecycle::advance_phase;
use solana_survivor::lifecycle::create_game;
use solana_survivor::lifecycle::enter_game;
use solana_survivor::lifecycle::start_game;
use solana_survivor::phase1::initialize_player_state;
use solana_survivor::phase2::claim_mini_game_win;
use solana_survivor::phase2::create_challenge;
use solana_survivor::phase2::ready_for_game;
use solana_survivor::phase2::respond_challenge;
use solana_survivor::phase2::start_mini_game;
use solana_survivor::player::PlayerGameState;
use solana_survivor::registry::initialize;

const CREATOR: u64 = 11;
const ALICE: u64 = 21;
const BOB: u64 = 22;

/// A game advanced into Phase 2, with player states for Alice and Bob.
fn phase2_game() -> (Game, PlayerGameState, PlayerGameState) {
    let mut registry = initialize(99);
    let mut game = create_game(
        &mut registry,
        String::from("arena"),
        100,
        10,
        1000,
        3,
        CREATOR,
        0,
    )
    .unwrap();
    enter_game(&mut game, CREATOR, 100).unwrap();
    enter_game(&mut game, ALICE, 100).unwrap();
    enter_game(&mut game, BOB, 100).unwrap();
    start_game(&mut game, CREATOR, 1000).unwrap();
    let alice = initialize_player_state(&game, ALICE, 1000).unwrap();
    let bob = initialize_player_state(&game, BOB, 1000).unwrap();
    advance_phase(&mut game, CREATOR, 4600).unwrap();
    (game, alice, bob)
}

fn make_challenge(game: &Game, alice: &PlayerGameState, bet: u64) -> Challenge {
    create_challenge(
        game,
        alice,
        ALICE,
        BOB,
        5000,
        bet,
        MiniGameType::RockPaperScissors,
    )
    .unwrap()
}

#[test]
fn challenge_creation_validates_everything() {
    let (mut game, alice, _bob) = phase2_game();
    assert_eq!(
        create_challenge(&game, &alice, ALICE, BOB, 5000, 2000, MiniGameType::CryptoTrivia)
            .unwrap_err(),
        GameError::InsufficientBalance
    );
    assert_eq!(
        create_challenge(&game, &alice, ALICE, 77, 5000, 10, MiniGameType::CryptoTrivia)
            .unwrap_err(),
        GameError::OpponentNotInGame
    );
    assert_eq!(
        create_challenge(&game, &alice, ALICE, ALICE, 5000, 10, MiniGameType::CryptoTrivia)
            .unwrap_err(),
        GameError::CannotChallengeSelf
    );
    let c = make_challenge(&game, &alice, 10);
    assert_eq!(c.status, ChallengeStatus::Pending);
    assert_eq!(c.challenge_id, 5000);
    assert_eq!(c.bet_amount, 10);
    assert_eq!(c.opponent_decline_count, 0);
    // Challenges belong to Phase 2 alone.
    advance_phase(&mut game, CREATOR, 8200).unwrap();
    assert_eq!(
        create_challenge(&game, &alice, ALICE, BOB, 5000, 10, MiniGameType::CryptoTrivia)
            .unwrap_err(),
        GameError::InvalidPhase
    );
}

#[test]
fn per_opponent_cap_blocks_a_fourth_game() {
    let (game, mut alice, mut bob) = phase2_game();
    // The cap for a ten-player game is three games per opponent.
    for _ in 0..3 {
        let mut c = make_challenge(&game, &alice, 10);
        respond_challenge(&mut c, &bob, BOB, true, 5100).unwrap();
        ready_for_game(&mut c, ALICE).unwrap();
        start_mini_game(&mut c, 5200).unwrap();
        claim_mini_game_win(&mut c, &mut alice, &mut bob, ALICE).unwrap();
    }
    assert_eq!(alice.phase2_games_played, 3);
    assert_eq!(
        create_challenge(&game, &alice, ALICE, BOB, 6000, 10, MiniGameType::MemeBattle)
            .unwrap_err(),
        GameError::MaxGamesPerOpponentReached
    );
}

#[test]
fn response_requires_the_challenged_player() {
    let (game, alice, bob) = phase2_game();
    let mut c = make_challenge(&game, &alice, 10);
    assert_eq!(
        respond_challenge(&mut c, &bob, ALICE, true, 5100).unwrap_err(),
        GameError::NotChallengeOpponent
    );
    respond_challenge(&mut c, &bob, BOB, true, 5100).unwrap();
    assert_eq!(c.status, ChallengeStatus::Accepted);
    assert_eq!(c.accepted_at, Some(5100));
    // Only a pending challenge takes a response.
    assert_eq!(
        respond_challenge(&mut c, &bob, BOB, true, 5200).unwrap_err(),
        GameError::InvalidChallengeStatus
    );
}

#[test]
fn acceptance_needs_a_covering_balance() {
    let (game, alice, mut bob) = phase2_game();
    let mut c = make_challenge(&game, &alice, 900);
    bob.virtual_balance = 100;
    assert_eq!(
        respond_challenge(&mut c, &bob, BOB, true, 5100).unwrap_err(),
        GameError::InsufficientBalance
    );
    assert_eq!(c.status, ChallengeStatus::Pending);
}

#[test]
fn five_declines_force_acceptance_and_a_sixth_fails() {
    let (game, alice, bob) = phase2_game();
    let mut c = make_challenge(&game, &alice, 10);
    for i in 1..=4u8 {
        respond_challenge(&mut c, &bob, BOB, false, 5100).unwrap();
        assert_eq!(c.opponent_decline_count, i);
        assert_eq!(c.status, ChallengeStatus::Pending);
    }
    respond_challenge(&mut c, &bob, BOB, false, 5100).unwrap();
    assert_eq!(c.opponent_decline_count, 5);
    assert_eq!(c.status, ChallengeStatus::ForcedAccept);
    // The sixth decline fails on the status and changes nothing.
    assert_eq!(
        respond_challenge(&mut c, &bob, BOB, false, 5200).unwrap_err(),
        GameError::InvalidChallengeStatus
    );
    assert_eq!(c.opponent_decline_count, 5);
    // Forcing does not auto-progress: a ready call is still required.
    ready_for_game(&mut c, BOB).unwrap();
    assert_eq!(c.status, ChallengeStatus::BothReady);
}

#[test]
fn ready_and_start_follow_the_state_machine() {
    let (game, alice, bob) = phase2_game();
    let mut c = make_challenge(&game, &alice, 10);
    assert_eq!(
        ready_for_game(&mut c, ALICE).unwrap_err(),
        GameError::InvalidChallengeStatus
    );
    assert_eq!(
        start_mini_game(&mut c, 5200).unwrap_err(),
        GameError::InvalidChallengeStatus
    );
    respond_challenge(&mut c, &bob, BOB, true, 5100).unwrap();
    assert_eq!(
        ready_for_game(&mut c, 77).unwrap_err(),
        GameError::NotChallengeParticipant
    );
    ready_for_game(&mut c, BOB).unwrap();
    assert_eq!(c.status, ChallengeStatus::BothReady);
    start_mini_game(&mut c, 5200).unwrap();
    assert_eq!(c.status, ChallengeStatus::InProgress);
    assert_eq!(c.game_started_at, Some(5200));
}

#[test]
fn claiming_a_win_moves_the_bet_and_records_both_sides() {
    let (game, mut alice, mut bob) = phase2_game();
    let mut c = make_challenge(&game, &alice, 250);
    assert_eq!(
        claim_mini_game_win(&mut c, &mut alice, &mut bob, ALICE).unwrap_err(),
        GameError::InvalidChallengeStatus
    );
    respond_challenge(&mut c, &bob, BOB, true, 5100).unwrap();
    ready_for_game(&mut c, ALICE).unwrap();
    start_mini_game(&mut c, 5200).unwrap();
    assert_eq!(
        claim_mini_game_win(&mut c, &mut alice, &mut bob, 77).unwrap_err(),
        GameError::InvalidWinner
    );
    claim_mini_game_win(&mut c, &mut alice, &mut bob, ALICE).unwrap();
    assert_eq!(alice.virtual_balance, 1250);
    assert_eq!(bob.virtual_balance, 750);
    assert_eq!(alice.phase2_games_played, 1);
    assert_eq!(alice.phase2_games_won, 1);
    assert_eq!(bob.phase2_games_played, 1);
    assert_eq!(bob.phase2_games_won, 0);
    assert_eq!(c.status, ChallengeStatus::Completed);
    assert_eq!(c.winner, Some(ALICE));
    // A completed challenge cannot be claimed again.
    assert_eq!(
        claim_mini_game_win(&mut c, &mut alice, &mut bob, ALICE).unwrap_err(),
        GameError::InvalidChallengeStatus
    );
}

#[test]
fn a_win_needs_the_loser_to_cover_the_bet() {
    let (game, mut alice, mut bob) = phase2_game();
    let mut c = make_challenge(&game, &alice, 800);
    respond_challenge(&mut c, &bob, BOB, true, 5100).unwrap();
    ready_for_game(&mut c, ALICE).unwrap();
    start_mini_game(&mut c, 5200).unwrap();
    // The loser spent their tokens meanwhile.
    bob.virtual_balance = 700;
    assert_eq!(
        claim_mini_game_win(&mut c, &mut alice, &mut bob, ALICE).unwrap_err(),
        GameError::InsufficientBalance
    );
    assert_eq!(c.status, ChallengeStatus::InProgress);
    assert_eq!(alice.virtual_balance, 1000);
    assert_eq!(bob.virtual_balance, 700);
}
