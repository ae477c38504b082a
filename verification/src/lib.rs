//! Pari-mutuel betting rounds ("spin wheel"): players stake into a shared pot
//! during a betting window, a stake-weighted winner is chosen by a
//! commit-reveal random process, the pot minus a house fee is paid to the
//! winner, and every bettor earns a reward-token entitlement proportional to
//! its stake through an ordered settlement pipeline.

use vstd::prelude::*;

pub mod admin;
pub mod bets;
pub mod errors;
pub mod escrow;
pub mod settlement;
pub mod state;
pub mod winner;

verus! {

/// Capacity of a round's bet arena.
pub const MAX_PLAYERS: usize = 10;

/// Smallest stake a single bet may place, in lamports.
pub const MIN_BET_AMOUNT: u64 = 10_000_000;

/// Largest stake a single bet may place, in lamports.
pub const MAX_BET_AMOUNT: u64 = 10_000_000_000;

/// Upper bound on the house fee, in basis points (5%).
pub const MAX_GAME_HOUSE_FEE_BASIS_POINTS: u16 = 500;

/// House fee a fresh configuration starts with, in basis points.
pub const INITIAL_GAME_HOUSE_FEE_BASIS_POINTS: u16 = 10;

/// Shortest allowed betting window, in seconds.
pub const MIN_ROUND_DURATION: i64 = 1;

/// Longest allowed betting window, in seconds.
pub const MAX_ROUND_DURATION: i64 = 300;

/// Width of a seed commitment and of a revealed seed, in bytes.
pub const SEED_BYTES_LENGTH: usize = 32;

/// Reward tokens minted for each round, shared among its bettors.
pub const CASHINO_REWARD_PER_ROUND_UNITS: u64 = 1_000_000;

/// Fixed fee debited on top of every escrow withdrawal, in lamports.
pub const WITHDRAWAL_FEE_LAMPORTS: u64 = 10_000_000;

} // verus!
