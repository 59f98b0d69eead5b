//! Reel symbols and the table-driven payout evaluation.
//!
//! A spin's outcome is an ordered triple of symbols. The payout table lists
//! winning combinations in priority order, strongest first: every
//! three-of-a-kind, by value, then the partial matches. Evaluation walks the
//! table and the first matching rule wins, so overlapping combinations can
//! never be awarded twice for one spin.

use vstd::prelude::*;

verus! {

/// One reel symbol.
#[derive(Clone, Copy, PartialEq, Eq, Structural, Debug)]
pub enum ReelSymbol {
    RustyCrab,
    Raspberry,
    NodeJs,
    JavaScript,
    Python,
    CSharp,
}

/// How many distinct symbols a reel can land on.
pub const SYMBOL_COUNT: u32 = 6;

/// The symbol a reel shows for a drawn index.
pub open spec fn symbol_of_index_spec(i: int) -> ReelSymbol {
    if i == 0 {
        ReelSymbol::RustyCrab
    } else if i == 1 {
        ReelSymbol::Raspberry
    } else if i == 2 {
        ReelSymbol::NodeJs
    } else if i == 3 {
        ReelSymbol::JavaScript
    } else if i == 4 {
        ReelSymbol::Python
    } else {
        ReelSymbol::CSharp
    }
}

/// Maps a drawn index to its reel symbol.
pub fn symbol_of_index(i: u32) -> (s: ReelSymbol)
    requires
        i < SYMBOL_COUNT,
    ensures
        s == symbol_of_index_spec(i as int),
{
    if i == 0 {
        ReelSymbol::RustyCrab
    } else if i == 1 {
        ReelSymbol::Raspberry
    } else if i == 2 {
        ReelSymbol::NodeJs
    } else if i == 3 {
        ReelSymbol::JavaScript
    } else if i == 4 {
        ReelSymbol::Python
    } else {
        ReelSymbol::CSharp
    }
}

/// The settled outcome of one spin: the symbol on each of the three reels,
/// left to right. Ephemeral; recomputed each spin and never persisted.
#[derive(Clone, Copy, PartialEq, Eq, Structural, Debug)]
pub struct ReelResult {
    pub left: ReelSymbol,
    pub middle: ReelSymbol,
    pub right: ReelSymbol,
}

/// A winning combination class.
#[derive(Clone, Copy, PartialEq, Eq, Structural, Debug)]
pub enum ComboPattern {
    /// The symbol on all three reels.
    ThreeOfAKind(ReelSymbol),
    /// The symbol on two adjacent reels: left and middle, or middle and right.
    TwoAdjacent(ReelSymbol),
    /// The symbol on at least one reel.
    OneAnywhere(ReelSymbol),
}

/// One row of the payout table: a combination and the multiplier it awards.
#[derive(Clone, Copy, PartialEq, Eq, Structural, Debug)]
pub struct PayoutRule {
    pub pattern: ComboPattern,
    pub multiplier: u32,
}

/// Whether a reel result shows a combination.
pub open spec fn pattern_matches_spec(p: ComboPattern, r: ReelResult) -> bool {
    match p {
        ComboPattern::ThreeOfAKind(s) => r.left == s && r.middle == s && r.right == s,
        ComboPattern::TwoAdjacent(s) => (r.left == s && r.middle == s) || (r.middle == s
            && r.right == s),
        ComboPattern::OneAnywhere(s) => r.left == s || r.middle == s || r.right == s,
    }
}

/// Whether a reel result shows a combination.
pub fn pattern_matches(p: &ComboPattern, r: &ReelResult) -> (b: bool)
    ensures
        b == pattern_matches_spec(*p, *r),
{
    match *p {
        ComboPattern::ThreeOfAKind(s) => r.left == s && r.middle == s && r.right == s,
        ComboPattern::TwoAdjacent(s) => (r.left == s && r.middle == s) || (r.middle == s
            && r.right == s),
        ComboPattern::OneAnywhere(s) => r.left == s || r.middle == s || r.right == s,
    }
}

/// The multiplier of the first rule at or after position `i` that the reel
/// result matches; 0 when no rule matches. First match wins.
pub open spec fn table_multiplier_from(table: Seq<PayoutRule>, r: ReelResult, i: int) -> int
    decreases table.len() - i,
{
    if i < 0 || i >= table.len() {
        0
    } else if pattern_matches_spec(table[i].pattern, r) {
        table[i].multiplier as int
    } else {
        table_multiplier_from(table, r, i + 1)
    }
}

/// The multiplier a reel result wins under a payout table.
pub open spec fn win_multiplier(table: Seq<PayoutRule>, r: ReelResult) -> int {
    table_multiplier_from(table, r, 0)
}

/// The standard payout table, in priority order: each three-of-a-kind from
/// the most to the least valuable symbol, then two adjacent crabs, two
/// adjacent raspberries, and a single crab anywhere.
pub open spec fn standard_table_spec() -> Seq<PayoutRule> {
    seq![
        PayoutRule { pattern: ComboPattern::ThreeOfAKind(ReelSymbol::RustyCrab), multiplier: 500000 },
        PayoutRule { pattern: ComboPattern::ThreeOfAKind(ReelSymbol::Raspberry), multiplier: 250000 },
        PayoutRule { pattern: ComboPattern::ThreeOfAKind(ReelSymbol::NodeJs), multiplier: 50000 },
        PayoutRule { pattern: ComboPattern::ThreeOfAKind(ReelSymbol::JavaScript), multiplier: 37500 },
        PayoutRule { pattern: ComboPattern::ThreeOfAKind(ReelSymbol::Python), multiplier: 25000 },
        PayoutRule { pattern: ComboPattern::ThreeOfAKind(ReelSymbol::CSharp), multiplier: 12500 },
        PayoutRule { pattern: ComboPattern::TwoAdjacent(ReelSymbol::RustyCrab), multiplier: 7500 },
        PayoutRule { pattern: ComboPattern::TwoAdjacent(ReelSymbol::Raspberry), multiplier: 5000 },
        PayoutRule { pattern: ComboPattern::OneAnywhere(ReelSymbol::RustyCrab), multiplier: 100 },
    ]
}

/// Builds the standard payout table.
pub fn standard_payout_table() -> (t: Vec<PayoutRule>)
    ensures
        t@ == standard_table_spec(),
{
    let mut t: Vec<PayoutRule> = Vec::new();
    t.push(PayoutRule { pattern: ComboPattern::ThreeOfAKind(ReelSymbol::RustyCrab), multiplier: 500000 });
    t.push(PayoutRule { pattern: ComboPattern::ThreeOfAKind(ReelSymbol::Raspberry), multiplier: 250000 });
    t.push(PayoutRule { pattern: ComboPattern::ThreeOfAKind(ReelSymbol::NodeJs), multiplier: 50000 });
    t.push(PayoutRule { pattern: ComboPattern::ThreeOfAKind(ReelSymbol::JavaScript), multiplier: 37500 });
    t.push(PayoutRule { pattern: ComboPattern::ThreeOfAKind(ReelSymbol::Python), multiplier: 25000 });
    t.push(PayoutRule { pattern: ComboPattern::ThreeOfAKind(ReelSymbol::CSharp), multiplier: 12500 });
    t.push(PayoutRule { pattern: ComboPattern::TwoAdjacent(ReelSymbol::RustyCrab), multiplier: 7500 });
    t.push(PayoutRule { pattern: ComboPattern::TwoAdjacent(ReelSymbol::Raspberry), multiplier: 5000 });
    t.push(PayoutRule { pattern: ComboPattern::OneAnywhere(ReelSymbol::RustyCrab), multiplier: 100 });
    proof {
        vstd::assert_seqs_equal!(t@ == standard_table_spec());
    }
    t
}

/// A reel result that matches no rule of the table wins nothing.
pub proof fn lemma_no_match_no_multiplier(table: Seq<PayoutRule>, r: ReelResult, i: int)
    requires
        forall|j: int| 0 <= j < table.len() ==> !pattern_matches_spec(table[j].pattern, r),
    ensures
        table_multiplier_from(table, r, i) == 0,
    decreases table.len() - i,
{
    if 0 <= i < table.len() {
        lemma_no_match_no_multiplier(table, r, i + 1);
    }
}

/// Walks the payout table in order and returns the multiplier of the first
/// rule the reel result matches, or 0 when none does.
pub fn evaluate_reels(table: &Vec<PayoutRule>, r: &ReelResult) -> (m: u32)
    ensures
        m == win_multiplier(table@, *r),
{
    let mut i: usize = 0;
    while i < table.len()
        invariant
            0 <= i <= table@.len(),
            win_multiplier(table@, *r) == table_multiplier_from(table@, *r, i as int),
        decreases table@.len() - i,
    {
        let rule = table[i];
        if pattern_matches(&rule.pattern, r) {
            return rule.multiplier;
        }
        i = i + 1;
    }
    0
}

} // verus!
