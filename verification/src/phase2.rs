//! Phase 2, the challenge engine: creating and answering challenges,
//! readying, starting the mini-game, and settling the bet when a winner
//! is claimed.

use vstd::prelude::*;
use crate::challenge::Challenge;
use crate::challenge::ChallengeStatus;
use crate::challenge::MiniGameType;
use crate::challenge::challenge_wf;
use crate::challenge::spec_other_participant;
use crate::constants::MAX_OPPONENT_DECLINES;
use crate::errors::GameError;
use crate::game::Game;
use crate::player::PlayerGameState;
use crate::player::games_against;
use crate::player::player_economy_unchanged;
use crate::player::player_wf;
use crate::player::record_applied;

verus! {

/// The validation `create_challenge` performs, in order.
pub open spec fn spec_create_challenge(
    g: Game,
    ps: PlayerGameState,
    opponent: u64,
    challenger: u64,
    bet_amount: u64,
) -> Result<(), GameError> {
    if g.current_phase != 2 {
        Err(GameError::InvalidPhase)
    } else if ps.virtual_balance < bet_amount {
        Err(GameError::InsufficientBalance)
    } else if !g.players@.contains(opponent) {
        Err(GameError::OpponentNotInGame)
    } else if opponent == challenger {
        Err(GameError::CannotChallengeSelf)
    } else if games_against(ps.phase2_opponents_played@, opponent)
        >= g.phase2_max_games_per_opponent {
        Err(GameError::MaxGamesPerOpponentReached)
    } else {
        Ok(())
    }
}

/// A member challenges another member to a mini-game with a bet they can
/// cover, subject to the per-opponent cap. The challenge starts pending.
pub fn create_challenge(
    game: &Game,
    player_state: &PlayerGameState,
    challenger: u64,
    opponent: u64,
    timestamp: u64,
    bet_amount: u64,
    game_type: MiniGameType,
) -> (r: Result<Challenge, GameError>)
    requires
        player_wf(*player_state),
        player_state.player == challenger,
        player_state.game_id == game.game_id,
    ensures
        match r {
            Err(e) => Err::<(), GameError>(e) == spec_create_challenge(
                *game,
                *player_state,
                opponent,
                challenger,
                bet_amount,
            ),
            Ok(c) => {
                &&& spec_create_challenge(*game, *player_state, opponent, challenger, bet_amount)
                    is Ok
                &&& challenge_wf(c)
                &&& c == (Challenge {
                    challenge_id: timestamp,
                    game_id: game.game_id,
                    challenger,
                    opponent,
                    bet_amount,
                    game_type,
                    status: ChallengeStatus::Pending,
                    created_at: timestamp,
                    accepted_at: None,
                    game_started_at: None,
                    winner: None,
                    opponent_decline_count: 0,
                })
            },
        },
{
    if game.current_phase != 2 {
        return Err(GameError::InvalidPhase);
    }
    if player_state.virtual_balance < bet_amount {
        return Err(GameError::InsufficientBalance);
    }
    if !crate::game::contains_id(&game.players, opponent) {
        return Err(GameError::OpponentNotInGame);
    }
    if opponent == challenger {
        return Err(GameError::CannotChallengeSelf);
    }
    if !player_state.can_challenge_opponent(opponent, game.phase2_max_games_per_opponent) {
        return Err(GameError::MaxGamesPerOpponentReached);
    }
    Ok(
        Challenge {
            challenge_id: timestamp,
            game_id: game.game_id,
            challenger,
            opponent,
            bet_amount,
            game_type,
            status: ChallengeStatus::Pending,
            created_at: timestamp,
            accepted_at: None,
            game_started_at: None,
            winner: None,
            opponent_decline_count: 0,
        },
    )
}

/// The validation `respond_challenge` performs, in order.
pub open spec fn spec_respond_challenge(
    c: Challenge,
    os: PlayerGameState,
    responder: u64,
    accept: bool,
) -> Result<(), GameError> {
    if c.status != ChallengeStatus::Pending {
        Err(GameError::InvalidChallengeStatus)
    } else if c.opponent != responder {
        Err(GameError::NotChallengeOpponent)
    } else if accept && os.virtual_balance < c.bet_amount {
        Err(GameError::InsufficientBalance)
    } else {
        Ok(())
    }
}

/// How one decline moves a pending challenge: the decline counter goes up,
/// and reaching [`MAX_OPPONENT_DECLINES`] flips the status to
/// `ForcedAccept`.
pub open spec fn spec_challenge_after_decline(c: Challenge) -> Challenge {
    Challenge {
        status: (if c.opponent_decline_count + 1 >= MAX_OPPONENT_DECLINES {
            ChallengeStatus::ForcedAccept
        } else {
            ChallengeStatus::Pending
        }),
        opponent_decline_count: (c.opponent_decline_count + 1) as u8,
        ..c
    }
}

/// The challenged player accepts (with a balance that covers the bet) or
/// declines a pending challenge. The fifth decline flips the challenge to
/// `ForcedAccept` instead of leaving it pending; a later response attempt
/// fails on the status.
pub fn respond_challenge(
    challenge: &mut Challenge,
    opponent_state: &PlayerGameState,
    responder: u64,
    accept: bool,
    now: u64,
) -> (r: Result<(), GameError>)
    requires
        challenge_wf(*old(challenge)),
        opponent_state.player == old(challenge).opponent,
    ensures
        challenge_wf(*final(challenge)),
        r == spec_respond_challenge(*old(challenge), *opponent_state, responder, accept),
        r is Err ==> *final(challenge) == *old(challenge),
        r is Ok && accept ==> *final(challenge) == (Challenge {
            status: ChallengeStatus::Accepted,
            accepted_at: Some(now),
            ..*old(challenge)
        }),
        r is Ok && !accept ==> *final(challenge) == spec_challenge_after_decline(*old(challenge)),
{
    if challenge.status != ChallengeStatus::Pending {
        return Err(GameError::InvalidChallengeStatus);
    }
    if challenge.opponent != responder {
        return Err(GameError::NotChallengeOpponent);
    }
    if accept {
        if opponent_state.virtual_balance < challenge.bet_amount {
            return Err(GameError::InsufficientBalance);
        }
        challenge.status = ChallengeStatus::Accepted;
        challenge.accepted_at = Some(now);
    } else {
        challenge.opponent_decline_count = challenge.opponent_decline_count + 1;
        if challenge.opponent_decline_count >= MAX_OPPONENT_DECLINES {
            challenge.status = ChallengeStatus::ForcedAccept;
        }
    }
    Ok(())
}

/// The validation `ready_for_game` performs, in order.
pub open spec fn spec_ready_for_game(c: Challenge, player: u64) -> Result<(), GameError> {
    if c.status != ChallengeStatus::Accepted && c.status != ChallengeStatus::ForcedAccept {
        Err(GameError::InvalidChallengeStatus)
    } else if player != c.challenger && player != c.opponent {
        Err(GameError::NotChallengeParticipant)
    } else {
        Ok(())
    }
}

/// A participant declares themselves ready once the challenge is accepted
/// or forced; the challenge moves to `BothReady`.
pub fn ready_for_game(challenge: &mut Challenge, player: u64) -> (r: Result<(), GameError>)
    requires
        challenge_wf(*old(challenge)),
    ensures
        challenge_wf(*final(challenge)),
        r == spec_ready_for_game(*old(challenge), player),
        r is Err ==> *final(challenge) == *old(challenge),
        r is Ok ==> *final(challenge) == (Challenge {
            status: ChallengeStatus::BothReady,
            ..*old(challenge)
        }),
{
    if challenge.status != ChallengeStatus::Accepted && challenge.status
        != ChallengeStatus::ForcedAccept {
        return Err(GameError::InvalidChallengeStatus);
    }
    if player != challenge.challenger && player != challenge.opponent {
        return Err(GameError::NotChallengeParticipant);
    }
    challenge.status = ChallengeStatus::BothReady;
    Ok(())
}

/// Start the mini-game of a challenge whose participants are ready.
pub fn start_mini_game(challenge: &mut Challenge, now: u64) -> (r: Result<(), GameError>)
    requires
        challenge_wf(*old(challenge)),
    ensures
        challenge_wf(*final(challenge)),
        r == (if old(challenge).status == ChallengeStatus::BothReady {
            Ok::<(), GameError>(())
        } else {
            Err(GameError::InvalidChallengeStatus)
        }),
        r is Err ==> *final(challenge) == *old(challenge),
        r is Ok ==> *final(challenge) == (Challenge {
            status: ChallengeStatus::InProgress,
            game_started_at: Some(now),
            ..*old(challenge)
        }),
{
    if challenge.status != ChallengeStatus::BothReady {
        return Err(GameError::InvalidChallengeStatus);
    }
    challenge.status = ChallengeStatus::InProgress;
    challenge.game_started_at = Some(now);
    Ok(())
}

/// The validation `claim_mini_game_win` performs, in order.
pub open spec fn spec_claim_win(
    c: Challenge,
    ws: PlayerGameState,
    ls: PlayerGameState,
    winner: u64,
) -> Result<(), GameError> {
    if c.status != ChallengeStatus::InProgress {
        Err(GameError::InvalidChallengeStatus)
    } else if winner != c.challenger && winner != c.opponent {
        Err(GameError::InvalidWinner)
    } else if ls.virtual_balance < c.bet_amount {
        Err(GameError::InsufficientBalance)
    } else if ws.virtual_balance + c.bet_amount > u64::MAX || ws.phase2_games_played == u8::MAX
        || ls.phase2_games_played == u8::MAX {
        Err(GameError::MathOverflow)
    } else {
        Ok(())
    }
}

/// Settle an in-progress challenge: the named winner must be one of its
/// participants and the loser's balance must cover the bet. The bet moves
/// from loser to winner, both sides' Phase 2 counters and opponent
/// histories are updated, and the challenge completes with the winner
/// recorded.
pub fn claim_mini_game_win(
    challenge: &mut Challenge,
    winner_state: &mut PlayerGameState,
    loser_state: &mut PlayerGameState,
    winner: u64,
) -> (r: Result<(), GameError>)
    requires
        challenge_wf(*old(challenge)),
        player_wf(*old(winner_state)),
        player_wf(*old(loser_state)),
        winner == old(challenge).challenger || winner == old(challenge).opponent ==> {
            &&& old(winner_state).player == winner
            &&& old(loser_state).player == spec_other_participant(*old(challenge), winner)
        },
    ensures
        challenge_wf(*final(challenge)),
        player_wf(*final(winner_state)),
        player_wf(*final(loser_state)),
        r == spec_claim_win(*old(challenge), *old(winner_state), *old(loser_state), winner),
        r is Err ==> *final(challenge) == *old(challenge) && *final(winner_state) == *old(
            winner_state,
        ) && *final(loser_state) == *old(loser_state),
        r is Ok ==> {
            let loser = spec_other_participant(*old(challenge), winner);
            &&& *final(challenge) == (Challenge {
                status: ChallengeStatus::Completed,
                winner: Some(winner),
                ..*old(challenge)
            })
            &&& final(winner_state).virtual_balance == old(winner_state).virtual_balance + old(
                challenge,
            ).bet_amount
            &&& final(loser_state).virtual_balance == old(loser_state).virtual_balance - old(
                challenge,
            ).bet_amount
            &&& record_applied(
                PlayerGameState {
                    virtual_balance: final(winner_state).virtual_balance,
                    ..*old(winner_state)
                },
                *final(winner_state),
                loser,
                true,
            )
            &&& record_applied(
                PlayerGameState {
                    virtual_balance: final(loser_state).virtual_balance,
                    ..*old(loser_state)
                },
                *final(loser_state),
                winner,
                false,
            )
            &&& player_economy_unchanged(
                PlayerGameState {
                    virtual_balance: final(winner_state).virtual_balance,
                    ..*old(winner_state)
                },
                *final(winner_state),
            )
            &&& player_economy_unchanged(
                PlayerGameState {
                    virtual_balance: final(loser_state).virtual_balance,
                    ..*old(loser_state)
                },
                *final(loser_state),
            )
        },
{
    if challenge.status != ChallengeStatus::InProgress {
        return Err(GameError::InvalidChallengeStatus);
    }
    if winner != challenge.challenger && winner != challenge.opponent {
        return Err(GameError::InvalidWinner);
    }
    let loser = if winner == challenge.challenger {
        challenge.opponent
    } else {
        challenge.challenger
    };
    let bet_amount = challenge.bet_amount;
    if loser_state.virtual_balance < bet_amount {
        return Err(GameError::InsufficientBalance);
    }
    let new_winner_balance = match winner_state.virtual_balance.checked_add(bet_amount) {
        Some(v) => v,
        None => {
            return Err(GameError::MathOverflow);
        },
    };
    if winner_state.phase2_games_played == u8::MAX {
        return Err(GameError::MathOverflow);
    }
    if loser_state.phase2_games_played == u8::MAX {
        return Err(GameError::MathOverflow);
    }

    loser_state.virtual_balance = loser_state.virtual_balance - bet_amount;
    winner_state.virtual_balance = new_winner_balance;

    // Both recordings must succeed: the counters were bounded above, and
    // the other counters stay below them by well-formedness. The assert
    // shows the error arms unreachable.
    match winner_state.record_game_played(loser, true) {
        Ok(()) => (),
        Err(e) => {
            proof {
                assert(false);
            }
            return Err(e);
        },
    }
    match loser_state.record_game_played(winner, false) {
        Ok(()) => (),
        Err(e) => {
            proof {
                assert(false);
            }
            return Err(e);
        },
    }

    challenge.status = ChallengeStatus::Completed;
    challenge.winner = Some(winner);
    Ok(())
}

} // verus!
