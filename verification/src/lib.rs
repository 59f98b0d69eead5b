//! Control core of a coin-free slot-machine kiosk.
//!
//! The library tracks a player's spendable credit, resolves spins against a
//! payout table, broadcasts game-lifecycle events to independent reactors,
//! and persists credit to contactless tokens through a fixed-slot
//! non-volatile record table.

pub mod event;
pub mod bus;
pub mod payout;
pub mod cards;
pub mod draw;
pub mod machine;

