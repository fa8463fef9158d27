//! A provably fair mines game: Merkle-committed boards, a per-game state
//! machine, and an escrow that is settled exactly once.

pub mod binding;
pub mod digest;
pub mod error;
pub mod game;
pub mod laws;
pub mod merkle;
pub mod operations;
pub mod tree;
