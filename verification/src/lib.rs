//! Change-detection core for a game-activity notifier.
//!
//! The library keeps a record of everything it has observed about a remote
//! game service — which player owns the turn in each active game, which
//! challenges and finished games have been seen — and, for each fresh
//! snapshot of that service's state, computes exactly the items that are new
//! since the last observation. Fetching snapshots and delivering
//! notifications are the caller's business; the logic that decides what is
//! new, and when to slow the polling down, lives here and is verified.

pub mod commands;
pub mod laws;
pub mod poll;
pub mod records;
pub mod tracker;
