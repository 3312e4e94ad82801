//! Error taxonomy. Every operation fails with a specific named error per
//! violated rule, never a generic failure, and an operation that fails
//! leaves every record it was given unchanged.

use vstd::prelude::*;

verus! {

/// One error per rule an operation can reject on.
#[derive(Clone, Copy, Debug, PartialEq, Eq, Structural)]
pub enum GameError {
    // Game setup errors.
    /// Maximum players must be between 2 and 100.
    InvalidMaxPlayers,
    /// Entry fee must be greater than zero.
    InvalidEntryFee,
    /// Start time must be in the future.
    InvalidStartTime,
    /// Game duration must be between 1 and 24 hours.
    InvalidGameDuration,
    // Game state errors.
    /// This game is not accepting new players.
    GameNotOpen,
    /// Game has already started, cannot modify.
    GameAlreadyStarted,
    /// Game is full, no more players can join.
    GameFull,
    /// The player already joined this game.
    AlreadyJoined,
    /// The registration window has closed.
    GameExpired,
    /// Game has not started yet.
    GameNotStarted,
    /// Game is not in a cancelled or expired state.
    GameNotCancelled,
    /// Game must be completed before claiming prizes.
    GameNotCompleted,
    // Permission errors.
    /// Only the game creator can perform this action.
    NotCreator,
    /// Only the admin can perform this action.
    NotAdmin,
    /// The caller may not advance the phase yet.
    NotAuthorizedToAdvance,
    /// The caller is not authorized to perform this action.
    Unauthorized,
    // Player errors.
    /// At least 3 players are required to start the game.
    NotEnoughPlayers,
    /// The caller is not a participant in this game.
    NotInGame,
    /// The player already claimed their refund.
    AlreadyRefunded,
    /// The player does not have enough virtual tokens for this action.
    InsufficientBalance,
    // Phase 1 resource allocation errors.
    /// The resource allocation does not match the player's total balance.
    InvalidAllocation,
    // Phase 2 challenge errors.
    /// The opponent must be in the game.
    OpponentNotInGame,
    /// A player cannot challenge themselves.
    CannotChallengeSelf,
    /// The challenge is not in the correct state for that action.
    InvalidChallengeStatus,
    /// Only the challenged player can respond.
    NotChallengeOpponent,
    /// The caller is not part of this challenge.
    NotChallengeParticipant,
    /// The specified winner is not valid for this challenge.
    InvalidWinner,
    /// The maximum number of games against this opponent was reached.
    MaxGamesPerOpponentReached,
    /// The player did not meet the minimum game requirement for Phase 2.
    Phase2RequirementNotMet,
    // Phase 3 purge errors.
    /// The purge has already started.
    Phase3AlreadyStarted,
    /// The purge has not started yet.
    Phase3NotStarted,
    /// The deadline to mark ready has passed.
    ReadyDeadlineExpired,
    /// The ready period has not ended yet.
    ReadyPeriodNotExpired,
    /// Could not find a ready player.
    ReadyPlayerNotFound,
    /// A winner has already been declared.
    WinnerAlreadyDeclared,
    /// No winner has been declared yet.
    NoWinnerDeclared,
    /// The caller is not the winner of this game.
    NotWinner,
    /// There is no prize to collect.
    NoPrizeToCollect,
    /// The prize has already been claimed.
    AlreadyClaimed,
    // Phase errors.
    /// This action is not allowed in the current phase.
    InvalidPhase,
    /// The current phase has not ended yet.
    PhaseNotEnded,
    /// Only the creator can advance before the buffer period.
    OnlyCreatorCanAdvanceEarly,
    // Timing window errors.
    /// The 30-minute start window has expired.
    StartWindowExpired,
    /// The cancellation window has closed.
    CancelWindowExpired,
    /// Refunds only open 30 minutes after the scheduled start time.
    RefundNotYetAvailable,
    /// Conditions for a forced refund are not met.
    InvalidRefundCondition,
    /// The creator forfeited their funds by not fulfilling obligations.
    CreatorForfeitedFunds,
    // Admin errors.
    /// Cannot redistribute: some players marked themselves ready.
    SomePlayersReady,
    /// No eligible players found for redistribution.
    NoPurgePlayersFound,
    // Platform fee errors.
    /// No platform fees available to collect.
    NoFeeToCollect,
    // Math errors.
    /// A calculation hit a division edge case.
    InvalidCalculation,
    /// A math operation would overflow or underflow.
    MathOverflow,
}

impl GameError {
    /// A short stable name for the error, for hosts that log failures.
    pub fn as_str(&self) -> (s: &'static str) {
        match self {
            GameError::InvalidMaxPlayers => "invalid max players",
            GameError::InvalidEntryFee => "invalid entry fee",
            GameError::InvalidStartTime => "invalid start time",
            GameError::InvalidGameDuration => "invalid game duration",
            GameError::GameNotOpen => "game not open",
            GameError::GameAlreadyStarted => "game already started",
            GameError::GameFull => "game full",
            GameError::AlreadyJoined => "already joined",
            GameError::GameExpired => "game expired",
            GameError::GameNotStarted => "game not started",
            GameError::GameNotCancelled => "game not cancelled",
            GameError::GameNotCompleted => "game not completed",
            GameError::NotCreator => "not creator",
            GameError::NotAdmin => "not admin",
            GameError::NotAuthorizedToAdvance => "not authorized to advance",
            GameError::Unauthorized => "unauthorized",
            GameError::NotEnoughPlayers => "not enough players",
            GameError::NotInGame => "not in game",
            GameError::AlreadyRefunded => "already refunded",
            GameError::InsufficientBalance => "insufficient balance",
            GameError::InvalidAllocation => "invalid allocation",
            GameError::OpponentNotInGame => "opponent not in game",
            GameError::CannotChallengeSelf => "cannot challenge self",
            GameError::InvalidChallengeStatus => "invalid challenge status",
            GameError::NotChallengeOpponent => "not challenge opponent",
            GameError::NotChallengeParticipant => "not challenge participant",
            GameError::InvalidWinner => "invalid winner",
            GameError::MaxGamesPerOpponentReached => "max games per opponent reached",
            GameError::Phase2RequirementNotMet => "phase 2 requirement not met",
            GameError::Phase3AlreadyStarted => "purge already started",
            GameError::Phase3NotStarted => "purge not started",
            GameError::ReadyDeadlineExpired => "ready deadline expired",
            GameError::ReadyPeriodNotExpired => "ready period not expired",
            GameError::ReadyPlayerNotFound => "ready player not found",
            GameError::WinnerAlreadyDeclared => "winner already declared",
            GameError::NoWinnerDeclared => "no winner declared",
            GameError::NotWinner => "not winner",
            GameError::NoPrizeToCollect => "no prize to collect",
            GameError::AlreadyClaimed => "already claimed",
            GameError::InvalidPhase => "invalid phase",
            GameError::PhaseNotEnded => "phase not ended",
            GameError::OnlyCreatorCanAdvanceEarly => "only creator can advance early",
            GameError::StartWindowExpired => "start window expired",
            GameError::CancelWindowExpired => "cancel window expired",
            GameError::RefundNotYetAvailable => "refund not yet available",
            GameError::InvalidRefundCondition => "invalid refund condition",
            GameError::CreatorForfeitedFunds => "creator forfeited funds",
            GameError::SomePlayersReady => "some players ready",
            GameError::NoPurgePlayersFound => "no purge players found",
            GameError::NoFeeToCollect => "no fee to collect",
            GameError::InvalidCalculation => "invalid calculation",
            GameError::MathOverflow => "math overflow",
        }
    }
}

} // verus!
