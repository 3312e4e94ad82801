//! The process-wide game registry: a singleton record that issues unique
//! game identifiers and holds the protocol admin identity.

use vstd::prelude::*;

verus! {

/// Central registry tracking every game created and the admin identity
/// with emergency controls. Identities are the host platform's
/// already-authenticated account keys, reduced to plain integers.
#[derive(Clone, Debug)]
pub struct GameRegistry {
    /// Counter used for game id generation.
    pub game_count: u64,
    /// Total number of games ever created.
    pub total_games_created: u64,
    /// Admin identity with emergency controls.
    pub admin: u64,
}

impl GameRegistry {
    /// Take the next game id and advance the counters.
    pub fn next_game_id(&mut self) -> (id: u64)
        requires
            old(self).game_count < u64::MAX,
            old(self).total_games_created < u64::MAX,
        ensures
            id == old(self).game_count,
            final(self).game_count == old(self).game_count + 1,
            final(self).total_games_created == old(self).total_games_created + 1,
            final(self).admin == old(self).admin,
    {
        let id = self.game_count;
        self.game_count = self.game_count + 1;
        self.total_games_created = self.total_games_created + 1;
        id
    }
}

/// Create the registry: zero games so far and the given admin identity.
/// The host calls this exactly once at deployment; there is no other
/// construction path.
pub fn initialize(admin: u64) -> (r: GameRegistry)
    ensures
        r.game_count == 0,
        r.total_games_created == 0,
        r.admin == admin,
{
    GameRegistry { game_count: 0, total_games_created: 0, admin }
}

} // verus!
