//! Game-lifecycle events.

use vstd::prelude::*;

verus! {

/// One game-lifecycle event. Each occurrence is broadcast once over the
/// event bus; consumers observe events in publish order, so a reactor that
/// sees `Spin` knows the bet was already debited, and one that sees `Win`
/// knows the payout was already credited.
#[derive(Clone, Copy, PartialEq, Eq, Structural, Debug)]
pub enum GameEvent {
    /// A spin was accepted and the bet debited.
    Spin,
    /// The reel result matched a payout combination and the win was credited.
    Win,
    /// The bet denomination changed.
    BetChanged,
    /// The player asked to load a token's stored balance.
    DepositRequested,
    /// The player asked to persist the live balance to a token.
    CashoutRequested,
}

} // verus!
