//! The game record: metadata, membership, the entry-fee escrow ledger,
//! the phase clock, and the purge bookkeeping, together with its
//! well-formedness invariant and the Phase 2 requirement formula.

use vstd::prelude::*;
use crate::constants::MAX_PHASE2_GAMES;
use crate::constants::MIN_PHASE2_GAMES;

verus! {

/// Game lifecycle status.
#[derive(Clone, Copy, Debug, PartialEq, Eq, Structural)]
pub enum GameStatus {
    /// Accepting new players.
    WaitingForPlayers,
    /// Full but not started yet.
    ReadyToStart,
    /// Game is active.
    InProgress,
    /// Game finished.
    Completed,
    /// Creator cancelled.
    Cancelled,
    /// Registration period expired.
    Expired,
    /// Expired with creator penalty: the creator forfeits their own entry.
    ExpiredWithPenalty,
}

/// Per-phase duration configuration, in seconds.
#[derive(Clone, Copy, Debug, PartialEq, Eq, Structural)]
pub struct PhaseDurations {
    /// Resource management phase.
    pub phase1_duration: u64,
    /// PvP challenge phase.
    pub phase2_duration: u64,
    /// Final purge phase.
    pub phase3_duration: u64,
}

/// One game instance: the exclusive owner of its escrowed entry fees.
///
/// `escrow` is the amount of real funds the game currently holds in
/// custody. Entry raises it by the entry fee; every release (refund, prize,
/// platform fee, redistribution) lowers it by exactly the amount paid out
/// and never below zero, which makes over-payment structurally impossible.
#[derive(Clone, Debug)]
pub struct Game {
    /// Unique id issued by the registry.
    pub game_id: u64,
    /// Display name chosen by the creator.
    pub name: String,
    /// Creator identity.
    pub creator: u64,
    /// Real funds each member escrows to join.
    pub entry_fee: u64,
    /// Most members allowed.
    pub max_players: u8,
    /// Members joined so far.
    pub current_players: u8,
    /// Member list; a player appears at most once.
    pub players: Vec<u64>,
    /// Scheduled start time.
    pub start_time: u64,
    /// End of the grace window after the scheduled start.
    pub expire_time: u64,
    /// Lifecycle status.
    pub status: GameStatus,
    /// Whether the game was started.
    pub game_started: bool,
    /// Sum of entry fees collected, the winner's stake.
    pub prize_pool: u64,
    /// Real funds currently held in custody by this game.
    pub escrow: u64,
    /// Members already refunded; monotone, a player appears at most once.
    pub refunded_players: Vec<u64>,
    /// Current phase: 0 before start, then 1 to 3.
    pub current_phase: u8,
    /// When the current phase began.
    pub phase_start_time: u64,
    /// When the current phase ends.
    pub phase_end_time: u64,
    /// After this deadline anyone, not only the creator, may advance.
    pub phase_advance_deadline: u64,
    /// Configured durations of the three phases.
    pub phases: PhaseDurations,
    /// Phase 2: games a player is expected to play.
    pub phase2_required_games: u8,
    /// Phase 2: cap on games against one opponent.
    pub phase2_max_games_per_opponent: u8,
    /// Phase 3: deadline to mark ready.
    pub phase3_ready_deadline: u64,
    /// Phase 3: extended deadline, 0 until the one extension is granted.
    pub phase3_extended_deadline: u64,
    /// Phase 3: players who marked ready.
    pub phase3_players_ready: u8,
    /// Phase 3: whether the purge is running.
    pub phase3_started: bool,
    /// Phase 3: declared winner, if any.
    pub phase3_winner: Option<u64>,
    /// Phase 3: whether the prize was paid; monotone.
    pub phase3_prize_claimed: bool,
    /// Accrued platform fee not yet collected.
    pub platform_fee_collected: u64,
}

/// The statuses a game can hold before it was started.
pub open spec fn status_prestart(s: GameStatus) -> bool {
    ||| s == GameStatus::WaitingForPlayers
    ||| s == GameStatus::ReadyToStart
    ||| s == GameStatus::Cancelled
    ||| s == GameStatus::Expired
    ||| s == GameStatus::ExpiredWithPenalty
}

/// The statuses in which members may claim their refund.
pub open spec fn status_refundable(s: GameStatus) -> bool {
    ||| s == GameStatus::Cancelled
    ||| s == GameStatus::Expired
    ||| s == GameStatus::ExpiredWithPenalty
}

/// Well-formedness of a game record. Constructors establish it and every
/// operation preserves it. The money clauses tie the escrow to the member
/// and refund lists, so a refund can always be paid, and pin the escrow to
/// the prize pool while the game runs.
pub open spec fn game_wf(g: Game) -> bool {
    &&& 2 <= g.max_players <= 100
    &&& 1 <= g.entry_fee
    &&& g.players@.no_duplicates()
    &&& g.players@.len() == g.current_players as int
    &&& g.current_players <= g.max_players
    &&& g.refunded_players@.no_duplicates()
    &&& forall|i: int|
        0 <= i < g.refunded_players@.len() ==> g.players@.contains(#[trigger] g.refunded_players@[i])
    &&& (!g.game_started <==> status_prestart(g.status))
    &&& (!g.game_started ==> {
        &&& g.current_phase == 0
        &&& g.platform_fee_collected == 0
        &&& !g.phase3_prize_claimed
        &&& !g.phase3_started
        &&& g.phase3_winner is None
        &&& g.prize_pool as int == g.players@.len() * g.entry_fee
        &&& g.escrow as int == g.prize_pool - g.refunded_players@.len() * g.entry_fee
    })
    &&& (g.game_started ==> {
        &&& 1 <= g.current_phase
        &&& 3 <= g.players@.len()
    })
    &&& (g.status == GameStatus::InProgress ==> {
        &&& g.platform_fee_collected == 0
        &&& !g.phase3_prize_claimed
        &&& g.phase3_winner is None
        &&& g.escrow as int == g.prize_pool - g.refunded_players@.len() * g.entry_fee
    })
    &&& (g.phase3_prize_claimed ==> g.prize_pool == 0)
}

// Frame predicates: each names a group of fields and holds when the whole
// group is unchanged between two game values. The ensures of the
// operations are written with these, so a reader can see at a glance which
// fields an operation can touch.

/// The fields fixed at creation; no operation ever changes them.
pub open spec fn config_unchanged(a: Game, b: Game) -> bool {
    &&& b.game_id == a.game_id
    &&& b.name == a.name
    &&& b.creator == a.creator
    &&& b.entry_fee == a.entry_fee
    &&& b.max_players == a.max_players
    &&& b.start_time == a.start_time
    &&& b.expire_time == a.expire_time
    &&& b.phases == a.phases
    &&& b.phase2_required_games == a.phase2_required_games
    &&& b.phase2_max_games_per_opponent == a.phase2_max_games_per_opponent
}

/// Membership fields.
pub open spec fn members_unchanged(a: Game, b: Game) -> bool {
    &&& b.players@ == a.players@
    &&& b.current_players == a.current_players
}

/// The phase clock.
pub open spec fn phase_clock_unchanged(a: Game, b: Game) -> bool {
    &&& b.current_phase == a.current_phase
    &&& b.phase_start_time == a.phase_start_time
    &&& b.phase_end_time == a.phase_end_time
    &&& b.phase_advance_deadline == a.phase_advance_deadline
}

/// The purge bookkeeping.
pub open spec fn purge_unchanged(a: Game, b: Game) -> bool {
    &&& b.phase3_ready_deadline == a.phase3_ready_deadline
    &&& b.phase3_extended_deadline == a.phase3_extended_deadline
    &&& b.phase3_players_ready == a.phase3_players_ready
    &&& b.phase3_started == a.phase3_started
    &&& b.phase3_winner == a.phase3_winner
}

/// Every field that carries or gates funds.
pub open spec fn money_unchanged(a: Game, b: Game) -> bool {
    &&& b.prize_pool == a.prize_pool
    &&& b.escrow == a.escrow
    &&& b.platform_fee_collected == a.platform_fee_collected
    &&& b.phase3_prize_claimed == a.phase3_prize_claimed
    &&& b.refunded_players@ == a.refunded_players@
}

/// Status and the started flag.
pub open spec fn lifecycle_unchanged(a: Game, b: Game) -> bool {
    &&& b.status == a.status
    &&& b.game_started == a.game_started
}

/// The largest `k` with `2^k <= n`, and 0 for `n < 2`. This is the exact
/// value the requirement formula's logarithm contributes for every member
/// bound a game can be created with.
pub open spec fn spec_floor_log2(n: u8) -> int {
    if n >= 128 {
        7
    } else if n >= 64 {
        6
    } else if n >= 32 {
        5
    } else if n >= 16 {
        4
    } else if n >= 8 {
        3
    } else if n >= 4 {
        2
    } else if n >= 2 {
        1
    } else {
        0
    }
}

/// Required Phase 2 games before clamping: the logarithmic base raised or
/// lowered by the phase duration. A phase of four hours or more asks for a
/// fifth more games, one under two hours for a fifth fewer, each product
/// truncated toward zero.
pub open spec fn spec_adjusted_requirement(max_players: u8, phase2_duration: u64) -> int {
    let base = spec_floor_log2(max_players) + 2;
    if phase2_duration >= 14400 {
        base * 6 / 5
    } else if phase2_duration >= 7200 {
        base
    } else {
        base * 4 / 5
    }
}

/// Required Phase 2 games: the adjusted requirement clamped between
/// [`MIN_PHASE2_GAMES`] and [`MAX_PHASE2_GAMES`].
pub open spec fn spec_required_games(max_players: u8, phase2_duration: u64) -> int {
    let adjusted = spec_adjusted_requirement(max_players, phase2_duration);
    if adjusted < MIN_PHASE2_GAMES as int {
        MIN_PHASE2_GAMES as int
    } else if adjusted > MAX_PHASE2_GAMES as int {
        MAX_PHASE2_GAMES as int
    } else {
        adjusted
    }
}

/// Cap on games against a single opponent, by game size.
pub open spec fn spec_max_per_opponent(max_players: u8) -> int {
    if max_players <= 5 {
        2
    } else if max_players <= 20 {
        3
    } else if max_players <= 50 {
        2
    } else {
        1
    }
}

impl Game {
    /// Calculate the Phase 2 requirements from the player bound and the
    /// phase duration: more players ask for more games, a longer phase
    /// raises the expectation, and farming a single opponent is capped.
    pub fn calculate_phase2_requirements(&self) -> (r: (u8, u8))
        ensures
            r.0 as int == spec_required_games(self.max_players, self.phases.phase2_duration),
            r.1 as int == spec_max_per_opponent(self.max_players),
    {
        let n = self.max_players;
        let log2: u8 = if n >= 128 {
            7
        } else if n >= 64 {
            6
        } else if n >= 32 {
            5
        } else if n >= 16 {
            4
        } else if n >= 8 {
            3
        } else if n >= 4 {
            2
        } else if n >= 2 {
            1
        } else {
            0
        };
        let base: u8 = log2 + 2;

        let adjusted: u8 = if self.phases.phase2_duration >= 14400 {
            base * 6 / 5
        } else if self.phases.phase2_duration >= 7200 {
            base
        } else {
            base * 4 / 5
        };

        let required_games: u8 = if adjusted < MIN_PHASE2_GAMES {
            MIN_PHASE2_GAMES
        } else if adjusted > MAX_PHASE2_GAMES {
            MAX_PHASE2_GAMES
        } else {
            adjusted
        };

        let max_per_opponent: u8 = if n <= 5 {
            2
        } else if n <= 20 {
            3
        } else if n <= 50 {
            2
        } else {
            1
        };

        (required_games, max_per_opponent)
    }
}

/// A distinct list of members (`rs`) that misses at least one member of a
/// distinct list `ps` is strictly shorter than `ps`. This is what makes a
/// refund always payable: the refunded list grows inside the member list,
/// so the escrow, one fee per unrefunded member, still covers one fee.
/// Pushing an element that a distinct list does not hold keeps it
/// distinct.
pub proof fn lemma_push_distinct(rs: Seq<u64>, p: u64)
    requires
        rs.no_duplicates(),
        !rs.contains(p),
    ensures
        rs.push(p).no_duplicates(),
{
    let rs2 = rs.push(p);
    assert forall|i: int, j: int|
        0 <= i < rs2.len() && 0 <= j < rs2.len() && i != j implies rs2[i] != rs2[j] by {
        if i < rs.len() && j < rs.len() {
            assert(rs[i] != rs[j]);
        } else if j == rs.len() && i < rs.len() {
            assert(rs.contains(rs[i]));
        } else if i == rs.len() && j < rs.len() {
            assert(rs.contains(rs[j]));
        }
    }
}

pub proof fn lemma_strict_sublist_shorter(ps: Seq<u64>, rs: Seq<u64>, p: u64)
    requires
        ps.no_duplicates(),
        rs.no_duplicates(),
        forall|i: int| 0 <= i < rs.len() ==> ps.contains(#[trigger] rs[i]),
        ps.contains(p),
        !rs.contains(p),
    ensures
        rs.len() < ps.len(),
{
    broadcast use vstd::set::group_set_axioms;
    broadcast use vstd::seq_lib::seq_to_set_is_finite;

    let rs2 = rs.push(p);
    lemma_push_distinct(rs, p);
    rs2.unique_seq_to_set();
    ps.unique_seq_to_set();
    assert forall|x: u64| rs2.to_set().contains(x) implies ps.to_set().contains(x) by {
        assert(rs2.contains(x));
        let i = choose|i: int| 0 <= i < rs2.len() && rs2[i] == x;
        if i < rs.len() {
            assert(ps.contains(rs[i]));
        } else {
            assert(x == p);
        }
    }
    vstd::set_lib::lemma_len_subset(rs2.to_set(), ps.to_set());
}

/// Whether `v` holds `x`, for the plain id lists of the records.
pub fn contains_id(v: &Vec<u64>, x: u64) -> (b: bool)
    ensures
        b == v@.contains(x),
{
    let mut i: usize = 0;
    while i < v.len()
        invariant
            0 <= i <= v@.len(),
            forall|j: int| 0 <= j < i ==> v@[j] != x,
        decreases v@.len() - i,
    {
        if v[i] == x {
            assert(v@.contains(x));
            return true;
        }
        i = i + 1;
    }
    assert(!v@.contains(x));
    false
}

} // verus!
