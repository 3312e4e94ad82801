//! The Phase 3 ready record: one member's explicit opt-in to the purge.

use vstd::prelude::*;

verus! {

/// Tracks one player's opt-in to the purge. Players must actively opt in;
/// there is no automatic enrollment. The host keeps at most one record per
/// game and player.
#[derive(Clone, Copy, Debug, PartialEq, Eq, Structural)]
pub struct Phase3ReadyState {
    /// The game the opt-in belongs to.
    pub game_id: u64,
    /// The player who opted in.
    pub player: u64,
    /// Whether the player is ready for the purge.
    pub ready: bool,
    /// When they marked themselves ready.
    pub marked_ready_at: u64,
}

} // verus!
