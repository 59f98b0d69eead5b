//! The game session: live balance and bet, the spin state machine, and the
//! card-backed ledger reactions, all publishing to one event bus.
//!
//! Every state change is committed before the event announcing it is
//! published, so any reactor that observes a `Spin` knows the debit already
//! happened, and one that observes a `Win` knows the credit already happened.

use vstd::prelude::*;
use crate::event::GameEvent;
use crate::bus::EventBus;
use crate::payout::{PayoutRule, ReelResult, win_multiplier};
use crate::cards::{
    CardLedger, CardRecord, TokenId, MAX_SLOTS, RECORD_SIZE, card_slot, image_bytes, parse_image,
    lemma_card_slot_properties, lemma_card_slot_of_first_match, lemma_parse_image_round_trip,
    lemma_image_len,
};
use crate::draw::draw_reels;
use rand::rngs::SmallRng;

verus! {

/// The smallest bet denomination, which is also one ladder step and the base
/// unit a win multiplier is scaled by.
pub const BET_MIN: i64 = 500;

/// One bet ladder step.
pub const BET_STEP: i64 = 500;

/// The largest bet denomination; one step past it wraps back to the minimum.
pub const BET_MAX: i64 = 2500;

/// The base unit of the payout scale: a win pays `multiplier * (bet / BET_UNIT)`.
pub const BET_UNIT: i64 = 500;

/// How many denominations the bet ladder holds.
pub const BET_LADDER_LEN: u64 = 5;

/// The live balance is capped at the largest value a card record can store,
/// so that a cash-out never truncates credit.
pub const MAX_BALANCE: i64 = 0xFFFF_FFFF;

/// The abstract state of a game session: what every contract of the session
/// speaks about.
#[verifier::ext_equal]
pub ghost struct MachineModel {
    /// Live spendable credit for whichever token is currently played.
    pub balance: int,
    /// The current bet denomination.
    pub bet: int,
    /// Whether a spin has been accepted and not yet settled.
    pub spinning: bool,
    /// Whether the next press of the collect button requests a deposit
    /// (it alternates between deposit and cash-out).
    pub deposit_next: bool,
    /// Every event published so far, in publish order.
    pub events: Seq<GameEvent>,
    /// The payout table, in priority order.
    pub table: Seq<PayoutRule>,
    /// The in-memory mirror of the non-volatile record table.
    pub cards: Seq<CardRecord>,
}

/// An allowed bet: on the ladder from the minimum to the maximum, in whole
/// steps.
pub open spec fn is_bet_denomination(b: int) -> bool {
    BET_MIN <= b <= BET_MAX && b % (BET_STEP as int) == 0
}

/// The session invariant: credit is never negative and never above the
/// storable maximum, the bet is on the ladder, and the record table fits the
/// store's addressing.
pub open spec fn wf_model(m: MachineModel) -> bool {
    &&& 0 <= m.balance <= MAX_BALANCE
    &&& is_bet_denomination(m.bet)
    &&& m.cards.len() <= MAX_SLOTS
}

/// One bet-adjustment step: up one denomination, wrapping to the minimum
/// past the maximum.
pub open spec fn bet_step_spec(b: int) -> int {
    if b < BET_MAX {
        b + BET_STEP
    } else {
        BET_MIN as int
    }
}

/// The session after one bet adjustment.
pub open spec fn adjust_bet_model(m: MachineModel) -> MachineModel {
    MachineModel { bet: bet_step_spec(m.bet), events: m.events.push(GameEvent::BetChanged), ..m }
}

/// The session after a bet-to-maximum request.
pub open spec fn max_bet_model(m: MachineModel) -> MachineModel {
    MachineModel { bet: BET_MAX as int, events: m.events.push(GameEvent::BetChanged), ..m }
}

/// The session after one press of the collect button: the press alternately
/// requests a deposit or a cash-out, and only publishes the request.
pub open spec fn collect_model(m: MachineModel) -> MachineModel {
    MachineModel {
        deposit_next: !m.deposit_next,
        events: m.events.push(
            if m.deposit_next {
                GameEvent::DepositRequested
            } else {
                GameEvent::CashoutRequested
            },
        ),
        ..m
    }
}

/// Whether a spin request is accepted: the session is idle and the bet is
/// affordable.
pub open spec fn spin_accepted(m: MachineModel) -> bool {
    !m.spinning && m.bet <= m.balance
}

/// The session after a spin request: an accepted spin debits exactly the bet
/// and then publishes `Spin`; a refused one changes nothing and publishes
/// nothing.
pub open spec fn start_spin_model(m: MachineModel) -> MachineModel {
    if spin_accepted(m) {
        MachineModel {
            balance: m.balance - m.bet,
            spinning: true,
            events: m.events.push(GameEvent::Spin),
            ..m
        }
    } else {
        m
    }
}

/// What a reel result pays at a given bet: the table multiplier scaled by
/// how many base units the bet holds.
pub open spec fn payout_of(table: Seq<PayoutRule>, reels: ReelResult, bet: int) -> int {
    win_multiplier(table, reels) * (bet / (BET_UNIT as int))
}

/// A credit to the balance, saturating at the storable maximum.
pub open spec fn credit_clamped(balance: int, payout: int) -> int {
    if balance + payout > MAX_BALANCE {
        MAX_BALANCE as int
    } else {
        balance + payout
    }
}

/// The session after the reels settle: a positive payout is credited before
/// `Win` is published; a non-matching result credits nothing and publishes
/// nothing further.
pub open spec fn settle_spin_model(m: MachineModel, reels: ReelResult) -> MachineModel {
    let pay = payout_of(m.table, reels, m.bet);
    MachineModel {
        balance: credit_clamped(m.balance, pay),
        spinning: false,
        events: if pay > 0 {
            m.events.push(GameEvent::Win)
        } else {
            m.events
        },
        ..m
    }
}

/// Whether a token read outcome names a token the ledger knows.
pub open spec fn token_known(m: MachineModel, token: Option<TokenId>) -> bool {
    token matches Some(id) && card_slot(m.cards, id) >= 0
}

/// The session after a deposit reaction: a known token overwrites the live
/// balance with its stored value; an absent or unknown token changes nothing.
pub open spec fn deposit_model(m: MachineModel, token: Option<TokenId>) -> MachineModel {
    match token {
        Option::None => m,
        Option::Some(id) => {
            let s = card_slot(m.cards, id);
            if s >= 0 {
                MachineModel { balance: m.cards[s].value as int, ..m }
            } else {
                m
            }
        },
    }
}

/// The session after a cash-out reaction: a known token takes the live
/// balance into its record and the live balance is zeroed; an absent or
/// unknown token changes nothing, so credit is never silently discarded.
pub open spec fn cashout_model(m: MachineModel, token: Option<TokenId>) -> MachineModel {
    match token {
        Option::None => m,
        Option::Some(id) => {
            let s = card_slot(m.cards, id);
            if s >= 0 {
                MachineModel {
                    balance: 0,
                    cards: m.cards.update(
                        s,
                        CardRecord { id: m.cards[s].id, value: m.balance as u32 },
                    ),
                    ..m
                }
            } else {
                m
            }
        },
    }
}

/// The store image after a cash-out reaction: rewritten from the updated
/// mirror on a known token, and bit-for-bit unchanged otherwise.
pub open spec fn store_after_cashout(
    m: MachineModel,
    token: Option<TokenId>,
    store: Seq<u8>,
) -> Seq<u8> {
    if token_known(m, token) {
        image_bytes(cashout_model(m, token).cards)
    } else {
        store
    }
}

/// A freshly booted session: no credit, the minimum bet, idle, the collect
/// button set to request a deposit first, nothing published, and the mirror
/// loaded from the store.
pub open spec fn boot_model(table: Seq<PayoutRule>, cards: Seq<CardRecord>) -> MachineModel {
    MachineModel {
        balance: 0,
        bet: BET_MIN as int,
        spinning: false,
        deposit_next: true,
        events: Seq::empty(),
        table,
        cards,
    }
}

/// How a spin request was answered.
#[derive(Clone, Copy, PartialEq, Eq, Structural, Debug)]
pub enum SpinStart {
    /// The bet was debited and `Spin` published.
    Started,
    /// The bet exceeds the balance; nothing changed.
    InsufficientFunds,
    /// A spin is already in flight; nothing changed.
    Busy,
}

/// How a whole spin was answered.
#[derive(Clone, Copy, PartialEq, Eq, Structural, Debug)]
pub enum SpinOutcome {
    /// The reels that came up and the payout they won (zero on no match).
    Spun(ReelResult, i64),
    /// The bet exceeds the balance; nothing changed.
    InsufficientFunds,
    /// A spin is already in flight; nothing changed.
    Busy,
}

/// How a deposit or cash-out reaction was answered.
#[derive(Clone, Copy, PartialEq, Eq, Structural, Debug)]
pub enum LedgerOutcome {
    /// A known token was read and the reaction applied.
    Applied,
    /// A token was read but no record matches it; nothing changed.
    UnknownToken,
    /// No token could be read; nothing changed.
    NoToken,
}

/// The game session. The event bus is public: reactors subscribe to it and
/// poll it directly, and have no other access to the session's state.
pub struct SlotMachine {
    /// Live spendable credit.
    pub balance: i64,
    /// The current bet denomination.
    pub bet: i64,
    /// Whether a spin is in flight.
    pub spinning: bool,
    /// Whether the next collect press requests a deposit.
    pub deposit_next: bool,
    /// The payout table, walked in priority order.
    pub table: Vec<PayoutRule>,
    /// The in-memory mirror of the non-volatile record table.
    pub ledger: CardLedger,
    /// The broadcast bus every state-change event is published on.
    pub bus: EventBus,
}

impl View for SlotMachine {
    type V = MachineModel;

    open spec fn view(&self) -> MachineModel {
        MachineModel {
            balance: self.balance as int,
            bet: self.bet as int,
            spinning: self.spinning,
            deposit_next: self.deposit_next,
            events: self.bus.log(),
            table: self.table@,
            cards: self.ledger.records_spec(),
        }
    }
}

/// The bus keeps its configuration and subscriber registry across a session
/// operation.
pub open spec fn bus_config_unchanged(a: &SlotMachine, b: &SlotMachine) -> bool {
    &&& a.bus.capacity_spec() == b.bus.capacity_spec()
    &&& a.bus.max_subscribers_spec() == b.bus.max_subscribers_spec()
    &&& a.bus.subscriber_count_spec() == b.bus.subscriber_count_spec()
}

impl SlotMachine {
    /// The session invariant together with the bus's own; the session's
    /// event history is exactly the bus's publish history.
    pub open spec fn wf(&self) -> bool {
        &&& wf_model(self@)
        &&& self.bus.wf()
        &&& self@.events == self.bus.log()
    }

    /// Boots a session: reads every fixed slot of the store image into the
    /// in-memory mirror, then starts idle with no credit and the minimum
    /// bet. Runs to completion before any spin or deposit can be accepted.
    pub fn boot(
        table: Vec<PayoutRule>,
        store: &Vec<u8>,
        slots: usize,
        bus_capacity: usize,
        max_subscribers: usize,
    ) -> (m: SlotMachine)
        requires
            slots <= MAX_SLOTS,
            store@.len() == RECORD_SIZE * slots,
            bus_capacity >= 1,
        ensures
            m.wf(),
            m@ == boot_model(table@, parse_image(store@, slots as int)),
            m.bus.capacity_spec() == bus_capacity,
            m.bus.max_subscribers_spec() == max_subscribers,
            m.bus.subscriber_count_spec() == 0,
    {
        SlotMachine {
            balance: 0,
            bet: BET_MIN,
            spinning: false,
            deposit_next: true,
            table,
            ledger: CardLedger::load_all(store, slots),
            bus: EventBus::new(bus_capacity, max_subscribers),
        }
    }

    /// The live balance.
    pub fn balance(&self) -> (b: i64)
        ensures
            b == self@.balance,
    {
        self.balance
    }

    /// The current bet denomination.
    pub fn bet(&self) -> (b: i64)
        ensures
            b == self@.bet,
    {
        self.bet
    }

    /// Whether a spin is in flight.
    pub fn is_spinning(&self) -> (b: bool)
        ensures
            b == self@.spinning,
    {
        self.spinning
    }

    /// Whether the next press of the collect button requests a deposit.
    pub fn deposit_is_next(&self) -> (b: bool)
        ensures
            b == self@.deposit_next,
    {
        self.deposit_next
    }

    /// Steps the bet up one denomination, wrapping to the minimum past the
    /// maximum, and publishes the change.
    pub fn adjust_bet(&mut self)
        requires
            old(self).wf(),
            old(self)@.events.len() < usize::MAX,
        ensures
            final(self).wf(),
            final(self)@ == adjust_bet_model(old(self)@),
            bus_config_unchanged(old(self), final(self)),
    {
        if self.bet < BET_MAX {
            self.bet = self.bet + BET_STEP;
        } else {
            self.bet = BET_MIN;
        }
        self.bus.publish(GameEvent::BetChanged);
    }

    /// Sets the bet to the maximum denomination and publishes the change.
    pub fn set_max_bet(&mut self)
        requires
            old(self).wf(),
            old(self)@.events.len() < usize::MAX,
        ensures
            final(self).wf(),
            final(self)@ == max_bet_model(old(self)@),
            bus_config_unchanged(old(self), final(self)),
    {
        self.bet = BET_MAX;
        self.bus.publish(GameEvent::BetChanged);
    }

    /// One press of the single collect button: alternately publishes a
    /// deposit request or a cash-out request. The ledger reacts to the
    /// published event; the press itself changes no credit.
    pub fn press_collect(&mut self)
        requires
            old(self).wf(),
            old(self)@.events.len() < usize::MAX,
        ensures
            final(self).wf(),
            final(self)@ == collect_model(old(self)@),
            bus_config_unchanged(old(self), final(self)),
    {
        if self.deposit_next {
            self.deposit_next = false;
            self.bus.publish(GameEvent::DepositRequested);
        } else {
            self.deposit_next = true;
            self.bus.publish(GameEvent::CashoutRequested);
        }
    }

    /// Requests a spin. When the session is idle and the bet is affordable,
    /// debits exactly the bet and only then publishes `Spin`, so the debit
    /// is visible before the event is. An unaffordable bet reports
    /// insufficient funds and changes nothing; a spin already in flight is
    /// reported busy and changes nothing.
    pub fn start_spin(&mut self) -> (out: SpinStart)
        requires
            old(self).wf(),
            old(self)@.events.len() < usize::MAX,
        ensures
            final(self).wf(),
            final(self)@ == start_spin_model(old(self)@),
            bus_config_unchanged(old(self), final(self)),
            (out == SpinStart::Started) == spin_accepted(old(self)@),
            (out == SpinStart::Busy) == old(self)@.spinning,
            (out == SpinStart::InsufficientFunds) == (!old(self)@.spinning && old(self)@.bet
                > old(self)@.balance),
    {
        if self.spinning {
            SpinStart::Busy
        } else if self.bet > self.balance {
            SpinStart::InsufficientFunds
        } else {
            self.balance = self.balance - self.bet;
            self.bus.publish(GameEvent::Spin);
            self.spinning = true;
            SpinStart::Started
        }
    }

    /// Settles the reels of the spin in flight: evaluates them against the
    /// payout table in priority order, credits the payout — saturating at
    /// the storable maximum — and only then publishes `Win`; a non-matching
    /// result credits nothing and publishes nothing further. Returns the
    /// payout.
    pub fn settle_spin(&mut self, reels: ReelResult) -> (payout: i64)
        requires
            old(self).wf(),
            old(self)@.spinning,
            old(self)@.events.len() < usize::MAX,
        ensures
            final(self).wf(),
            final(self)@ == settle_spin_model(old(self)@, reels),
            bus_config_unchanged(old(self), final(self)),
            payout == payout_of(old(self)@.table, reels, old(self)@.bet),
    {
        let mult: u32 = crate::payout::evaluate_reels(&self.table, &reels);
        let units: i64 = self.bet / BET_UNIT;
        assert(1 <= units <= 5);
        assert((mult as int) * (units as int) <= 0xFFFF_FFFFi64 * 5) by (nonlinear_arith)
            requires
                mult <= 0xFFFF_FFFFu32,
                0 <= units <= 5,
        ;
        assert((mult as int) * (units as int) >= 0) by (nonlinear_arith)
            requires
                mult >= 0,
                units >= 0,
        ;
        let payout: i64 = (mult as i64) * units;
        if payout > 0 {
            if self.balance <= MAX_BALANCE - payout {
                self.balance = self.balance + payout;
            } else {
                self.balance = MAX_BALANCE;
            }
            self.bus.publish(GameEvent::Win);
        }
        self.spinning = false;
        payout
    }

    /// One whole spin: requests the spin and, when it is accepted, draws the
    /// three reels independently at random and settles them. The balance and
    /// event guarantees are exactly those of `start_spin` followed by
    /// `settle_spin` on the drawn reels.
    pub fn spin(&mut self, rng: &mut SmallRng) -> (out: SpinOutcome)
        requires
            old(self).wf(),
            old(self)@.events.len() + 2 <= usize::MAX,
        ensures
            final(self).wf(),
            bus_config_unchanged(old(self), final(self)),
            old(self)@.spinning ==> out == SpinOutcome::Busy && final(self)@ == old(self)@,
            (!old(self)@.spinning && old(self)@.bet > old(self)@.balance) ==> (out
                == SpinOutcome::InsufficientFunds && final(self)@ == old(self)@),
            spin_accepted(old(self)@) ==> (out matches SpinOutcome::Spun(reels, payout)
                && final(self)@ == settle_spin_model(start_spin_model(old(self)@), reels)
                && payout == payout_of(old(self)@.table, reels, old(self)@.bet)),
    {
        match self.start_spin() {
            SpinStart::Busy => SpinOutcome::Busy,
            SpinStart::InsufficientFunds => SpinOutcome::InsufficientFunds,
            SpinStart::Started => {
                let reels = draw_reels(rng);
                let payout = self.settle_spin(reels);
                SpinOutcome::Spun(reels, payout)
            },
        }
    }

    /// Reacts to a deposit request with the outcome of one token read: a
    /// known token's stored value overwrites the live balance; an absent or
    /// unknown token changes nothing.
    pub fn on_deposit(&mut self, token: Option<TokenId>) -> (out: LedgerOutcome)
        requires
            old(self).wf(),
        ensures
            final(self).wf(),
            final(self)@ == deposit_model(old(self)@, token),
            bus_config_unchanged(old(self), final(self)),
            (out == LedgerOutcome::Applied) == token_known(old(self)@, token),
            (out == LedgerOutcome::NoToken) == (token is None),
    {
        match token {
            Option::None => LedgerOutcome::NoToken,
            Option::Some(id) => match self.ledger.find_slot(id) {
                Option::Some(slot) => {
                    let rec = self.ledger.record_at(slot);
                    self.balance = rec.value as i64;
                    LedgerOutcome::Applied
                },
                Option::None => LedgerOutcome::UnknownToken,
            },
        }
    }

    /// Reacts to a cash-out request with the outcome of one token read: on a
    /// known token, writes the live balance into that token's record, zeroes
    /// the live balance, and rewrites the whole record table into the store
    /// image. An absent or unknown token leaves the session and the store
    /// bit-for-bit unchanged, so credit is never silently discarded.
    pub fn on_cashout(&mut self, token: Option<TokenId>, store: &mut Vec<u8>) -> (out:
        LedgerOutcome)
        requires
            old(self).wf(),
            old(store)@.len() == RECORD_SIZE * old(self)@.cards.len(),
        ensures
            final(self).wf(),
            final(self)@ == cashout_model(old(self)@, token),
            final(store)@ == store_after_cashout(old(self)@, token, old(store)@),
            final(store)@.len() == old(store)@.len(),
            bus_config_unchanged(old(self), final(self)),
            (out == LedgerOutcome::Applied) == token_known(old(self)@, token),
            (out == LedgerOutcome::NoToken) == (token is None),
    {
        match token {
            Option::None => LedgerOutcome::NoToken,
            Option::Some(id) => match self.ledger.find_slot(id) {
                Option::Some(slot) => {
                    self.ledger.set_value(slot, self.balance as u32);
                    self.balance = 0;
                    self.ledger.persist_all(store);
                    proof {
                        lemma_image_len(self.ledger.records_spec());
                    }
                    LedgerOutcome::Applied
                },
                Option::None => LedgerOutcome::UnknownToken,
            },
        }
    }
}

/// The bet after some number of single adjustments.
pub open spec fn bet_after_steps(b: int, n: nat) -> int
    decreases n,
{
    if n == 0 {
        b
    } else {
        bet_step_spec(bet_after_steps(b, (n - 1) as nat))
    }
}

/// The bet ladder is cyclic: from any allowed denomination, one adjustment
/// per ladder entry returns the bet to the same denomination, and every
/// intermediate value is an allowed denomination.
pub proof fn lemma_bet_ladder_cyclic(b: int)
    requires
        is_bet_denomination(b),
    ensures
        bet_after_steps(b, BET_LADDER_LEN as nat) == b,
        forall|n: nat| is_bet_denomination(#[trigger] bet_after_steps(b, n)),
{
    assert forall|n: nat| is_bet_denomination(#[trigger] bet_after_steps(b, n)) by {
        lemma_bet_steps_stay_on_ladder(b, n);
    }
    reveal_with_fuel(bet_after_steps, 6);
    assert(b == 500 || b == 1000 || b == 1500 || b == 2000 || b == 2500);
}

/// Helper induction: adjustment keeps the bet on the ladder.
proof fn lemma_bet_steps_stay_on_ladder(b: int, n: nat)
    requires
        is_bet_denomination(b),
    ensures
        is_bet_denomination(bet_after_steps(b, n)),
    decreases n,
{
    if n > 0 {
        lemma_bet_steps_stay_on_ladder(b, (n - 1) as nat);
    }
}

/// An unaffordable spin request leaves the session exactly as it was:
/// the balance keeps its value and no event — in particular no `Spin` — is
/// published.
pub proof fn lemma_unaffordable_spin_changes_nothing(m: MachineModel)
    requires
        !m.spinning,
        m.bet > m.balance,
    ensures
        start_spin_model(m) == m,
{
}

/// An accepted spin changes the balance by exactly the bet before `Spin` is
/// published, and settling then changes it by exactly the payout of the reel
/// result — zero for a non-matching one — as long as the credited balance
/// stays below the storable cap.
pub proof fn lemma_spin_balance_is_exact(m: MachineModel, reels: ReelResult)
    requires
        wf_model(m),
        spin_accepted(m),
    ensures
        start_spin_model(m).balance == m.balance - m.bet,
        start_spin_model(m).events == m.events.push(GameEvent::Spin),
        ({
            let pay = payout_of(m.table, reels, m.bet);
            let settled = settle_spin_model(start_spin_model(m), reels);
            &&& pay == 0 ==> settled.balance == m.balance - m.bet && settled.events
                == m.events.push(GameEvent::Spin)
            &&& (pay >= 0 && m.balance - m.bet + pay <= MAX_BALANCE) ==> settled.balance
                == m.balance - m.bet + pay
        }),
{
}

/// A reel result that matches no rule of the payout table pays nothing: the
/// spin's whole balance change is exactly the debited bet.
pub proof fn lemma_no_match_pays_nothing(m: MachineModel, reels: ReelResult)
    requires
        wf_model(m),
        spin_accepted(m),
        forall|j: int|
            0 <= j < m.table.len() ==> !crate::payout::pattern_matches_spec(
                m.table[j].pattern,
                reels,
            ),
    ensures
        payout_of(m.table, reels, m.bet) == 0,
        settle_spin_model(start_spin_model(m), reels).balance == m.balance - m.bet,
{
    crate::payout::lemma_no_match_no_multiplier(m.table, reels, 0);
}

/// Round trip: cashing out to a known token, rebooting from the rewritten
/// store, and depositing the same token restores as the live balance exactly
/// the value that was cashed out, whatever table the fresh boot uses.
pub proof fn lemma_cashout_boot_deposit_round_trip(
    m: MachineModel,
    id: TokenId,
    store: Seq<u8>,
    table2: Seq<PayoutRule>,
)
    requires
        wf_model(m),
        token_known(m, Some(id)),
    ensures
        cashout_model(m, Some(id)).balance == 0,
        ({
            let store1 = store_after_cashout(m, Some(id), store);
            let booted = boot_model(table2, parse_image(store1, m.cards.len() as int));
            deposit_model(booted, Some(id)).balance == m.balance
        }),
{
    let s = card_slot(m.cards, id);
    lemma_card_slot_properties(m.cards, id);
    let cards1 = cashout_model(m, Some(id)).cards;
    lemma_parse_image_round_trip(cards1);
    assert(cards1.len() == m.cards.len());
    assert(cards1[s].id == id);
    assert forall|j: int| 0 <= j < s implies cards1[j].id != id by {
        assert(cards1[j] == m.cards[j]);
    }
    lemma_card_slot_of_first_match(cards1, id, s);
    assert(cards1[s].value == m.balance as u32);
    assert(m.balance as u32 as int == m.balance);
}

/// A deposit or cash-out with an absent or unknown token is a strict no-op:
/// the live balance, the mirror, and the non-volatile store image are left
/// bit-for-bit unchanged.
pub proof fn lemma_unknown_token_is_no_op(
    m: MachineModel,
    token: Option<TokenId>,
    store: Seq<u8>,
)
    requires
        !token_known(m, token),
    ensures
        deposit_model(m, token) == m,
        cashout_model(m, token) == m,
        store_after_cashout(m, token, store) == store,
{
}

} // verus!
