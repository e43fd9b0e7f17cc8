//! Settlement core of a four-player game of chance: escrowed entry stakes,
//! commit-reveal randomness, host checkpoints and deadline-gated refunds.

pub mod address;
pub mod bytes;
pub mod checkpoint;
pub mod commitment;
pub mod game;
pub mod recovery;
pub mod registry;

use vstd::prelude::*;

verus! {

/// Entry stake paid by each depositor, in the ledger's smallest unit.
pub const ENTRY_FEE: u64 = 10_000_000;

/// Number of roster slots in a match.
pub const NUM_PLAYERS: usize = 4;

/// Share of the pot paid to the winner, in basis points.
pub const WINNER_BPS: u64 = 8000;

/// Share of the pot paid to the fee recipient, in basis points.
pub const PLATFORM_BPS: u64 = 2000;

/// Seconds the roster has to reveal once all four have deposited.
pub const REVEAL_TIMEOUT: i64 = 120;

/// Seconds after creation before an unfilled match may be cancelled.
pub const DEPOSIT_TIMEOUT: i64 = 600;

/// Seconds after start before a running match may be voided.
pub const GAME_TIMEOUT: i64 = 86400;

/// Capacity of the list of open matches.
pub const MAX_OPEN_GAMES: usize = 20;

} // verus!
