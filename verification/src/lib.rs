//! A multi-phase, fund-custodying competitive game engine.
//!
//! Participants escrow a real entry fee, receive a virtual token balance,
//! and progress through three phases: resource allocation, pairwise PvP
//! challenges, and a final elimination (the purge), with the escrowed pool
//! paid out to a single winner minus a platform fee.
//!
//! The library is the deterministic core: every operation validates its
//! preconditions against the supplied records, caller identity and trusted
//! timestamp, and either applies its whole effect or returns a specific
//! error and changes nothing. Fund movements are computed here (as amounts
//! and an explicit escrow ledger on each game) and performed by the host.

pub mod constants;
pub mod challenge;
pub mod errors;
pub mod events;
pub mod game;
pub mod laws;
pub mod lifecycle;
pub mod phase1;
pub mod phase2;
pub mod phase3;
pub mod purge;
pub mod player;
pub mod pool;
pub mod registry;
pub mod utils;
