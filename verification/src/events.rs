//! Notifications of state changes. The library only defines these records;
//! the host builds them from operation results and carries them to
//! whatever transport it logs through.

use vstd::prelude::*;

verus! {

/// A game was created.
#[derive(Clone, Debug)]
pub struct GameCreated {
    pub game_id: u64,
    pub creator: u64,
    pub entry_fee: u64,
    pub max_players: u8,
    pub start_time: u64,
    pub phase2_required_games: u8,
    pub phase2_max_games_per_opponent: u8,
}

/// A player joined a game.
#[derive(Clone, Copy, Debug)]
pub struct PlayerJoined {
    pub game_id: u64,
    pub player: u64,
    pub current_players: u8,
}

/// A game started and Phase 1 began.
#[derive(Clone, Copy, Debug)]
pub struct GameStarted {
    pub game_id: u64,
    pub start_time: u64,
    pub phase1_end_time: u64,
}

/// The creator cancelled a game.
#[derive(Clone, Copy, Debug)]
pub struct GameCancelled {
    pub game_id: u64,
    pub cancelled_at: u64,
}

/// A game expired with the creator penalized.
#[derive(Clone, Debug)]
pub struct GameExpiredWithPenalty {
    pub game_id: u64,
    pub expired_at: u64,
    pub reason: String,
}

/// A member claimed their refund.
#[derive(Clone, Copy, Debug)]
pub struct RefundClaimed {
    pub game_id: u64,
    pub player: u64,
    pub amount: u64,
}

/// A member forced their refund.
#[derive(Clone, Copy, Debug)]
pub struct ForcedRefundClaimed {
    pub game_id: u64,
    pub player: u64,
    pub amount: u64,
}

/// The game moved to the next phase.
#[derive(Clone, Copy, Debug)]
pub struct PhaseAdvanced {
    pub game_id: u64,
    pub new_phase: u8,
    pub phase_end_time: u64,
}

/// A challenge was issued.
#[derive(Clone, Copy, Debug)]
pub struct ChallengeCreated {
    pub challenge_id: u64,
    pub game_id: u64,
    pub challenger: u64,
    pub opponent: u64,
    pub bet_amount: u64,
}

/// A mini-game was settled.
#[derive(Clone, Copy, Debug)]
pub struct MiniGameCompleted {
    pub challenge_id: u64,
    pub winner: u64,
    pub loser: u64,
    pub bet_amount: u64,
}

/// The Phase 2 participation penalty was applied.
#[derive(Clone, Copy, Debug)]
pub struct Phase2PenaltyApplied {
    pub player: u64,
    pub games_played: u8,
    pub required_games: u8,
    pub penalty_amount: u64,
}

/// A purge winner was declared.
#[derive(Clone, Copy, Debug)]
pub struct Phase3WinnerDeclared {
    pub game_id: u64,
    pub winner: u64,
    pub prize_amount: u64,
}

/// The winner collected the prize.
#[derive(Clone, Copy, Debug)]
pub struct Phase3PrizeClaimed {
    pub game_id: u64,
    pub winner: u64,
    pub amount: u64,
}

/// A purge nobody readied for was closed and redistributed.
#[derive(Clone, Copy, Debug)]
pub struct GameClosedNoReady {
    pub game_id: u64,
    pub platform_fee: u64,
    pub purge_players: u8,
    pub share_per_player: u64,
}

} // verus!
