use slot_kiosk::bus::{EventBus, RecvOutcome};
use slot_kiosk::cards::{encode_record, slot_offset, CardLedger, CardRecord, TokenId};
use slot_kiosk::draw::{draw_reels, rng_from_seed};
use slot_kiosk::event::GameEvent;
use slot_kiosk::machine::{
    LedgerOutcome, SlotMachine, SpinOutcome, SpinStart, BET_MAX, BET_MIN,
};
use slot_kiosk::payout::{
    evaluate_reels, standard_payout_table, ReelResult, ReelSymbol, SYMBOL_COUNT,
};

fn tok_a() -> TokenId {
    TokenId { b0: 80, b1: 243, b2: 109, b3: 20 }
}

fn tok_b() -> TokenId {
    TokenId { b0: 10, b1: 85, b2: 52, b3: 0 }
}

fn tok_unknown() -> TokenId {
    TokenId { b0: 1, b1: 2, b2: 3, b3: 4 }
}

/// A store image with two known cards: 80000 behind `tok_a`, 100000 behind
/// `tok_b`.
fn demo_store() -> Vec<u8> {
    let mut store = Vec::new();
    let mut a = encode_record(&CardRecord { id: tok_a(), value: 80000 });
    let mut b = encode_record(&CardRecord { id: tok_b(), value: 100000 });
    store.append(&mut a);
    store.append(&mut b);
    store
}

fn demo_machine(bus_capacity: usize) -> SlotMachine {
    let store = demo_store();
    SlotMachine::boot(standard_payout_table(), &store, 2, bus_capacity, 5)
}

fn reels(l: ReelSymbol, m: ReelSymbol, r: ReelSymbol) -> ReelResult {
    ReelResult { left: l, middle: m, right: r }
}

fn no_win_reels() -> ReelResult {
    reels(ReelSymbol::Raspberry, ReelSymbol::NodeJs, ReelSymbol::Python)
}

#[test]
fn bet_ladder_cycles_back() {
    let mut m = demo_machine(64);
    assert_eq!(m.bet(), BET_MIN);
    let mut seen = Vec::new();
    for _ in 0..5 {
        m.adjust_bet();
        seen.push(m.bet());
    }
    assert_eq!(seen, vec![1000, 1500, 2000, 2500, 500]);
    assert_eq!(m.bet(), BET_MIN);
}

#[test]
fn max_bet_jumps_to_top() {
    let mut m = demo_machine(64);
    m.set_max_bet();
    assert_eq!(m.bet(), BET_MAX);
    m.adjust_bet();
    assert_eq!(m.bet(), BET_MIN);
}

#[test]
fn insufficient_funds_changes_nothing_and_emits_nothing() {
    let mut m = demo_machine(64);
    let mut sub = m.bus.subscribe().unwrap();
    assert_eq!(m.balance(), 0);
    let out = m.start_spin();
    assert_eq!(out, SpinStart::InsufficientFunds);
    assert_eq!(m.balance(), 0);
    assert_eq!(sub.recv(&m.bus), RecvOutcome::Empty);

    let mut rng = rng_from_seed(7);
    let out = m.spin(&mut rng);
    assert_eq!(out, SpinOutcome::InsufficientFunds);
    assert_eq!(m.balance(), 0);
    assert_eq!(sub.recv(&m.bus), RecvOutcome::Empty);
}

#[test]
fn spin_debits_bet_before_event_then_credits_payout() {
    let mut m = demo_machine(64);
    m.on_deposit(Some(tok_a()));
    assert_eq!(m.balance(), 80000);
    let mut sub = m.bus.subscribe().unwrap();

    let out = m.start_spin();
    assert_eq!(out, SpinStart::Started);
    // the debit is committed before the event is observable
    assert_eq!(m.balance(), 80000 - 500);
    assert_eq!(sub.recv(&m.bus), RecvOutcome::Message(GameEvent::Spin));

    // a non-matching reel result pays nothing and emits no further event
    let payout = m.settle_spin(no_win_reels());
    assert_eq!(payout, 0);
    assert_eq!(m.balance(), 79500);
    assert_eq!(sub.recv(&m.bus), RecvOutcome::Empty);

    // a second spin is refused while one is in flight
    let st = m.start_spin();
    assert_eq!(st, SpinStart::Started);
    assert_eq!(m.start_spin(), SpinStart::Busy);
    assert_eq!(m.balance(), 79000);

    // a winning result credits the payout before the win event is observable
    let payout = m.settle_spin(reels(
        ReelSymbol::CSharp,
        ReelSymbol::CSharp,
        ReelSymbol::CSharp,
    ));
    assert_eq!(payout, 12500);
    assert_eq!(m.balance(), 79000 + 12500);
    assert_eq!(sub.recv(&m.bus), RecvOutcome::Message(GameEvent::Spin));
    assert_eq!(sub.recv(&m.bus), RecvOutcome::Message(GameEvent::Win));
    assert_eq!(sub.recv(&m.bus), RecvOutcome::Empty);
}

#[test]
fn random_spin_payout_matches_table() {
    let mut m = demo_machine(4096);
    m.on_deposit(Some(tok_b()));
    let table = standard_payout_table();
    let mut rng = rng_from_seed(42);
    for _ in 0..50 {
        if m.balance() < m.bet() {
            break;
        }
        let before = m.balance();
        let bet = m.bet();
        match m.spin(&mut rng) {
            SpinOutcome::Spun(r, payout) => {
                let mult = evaluate_reels(&table, &r) as i64;
                assert_eq!(payout, mult * (bet / 500));
                assert_eq!(m.balance(), before - bet + payout);
            }
            other => panic!("accepted spin reported {:?}", other),
        }
    }
}

#[test]
fn reel_draws_vary() {
    let mut rng = rng_from_seed(3);
    let mut symbols = Vec::new();
    for _ in 0..40 {
        let r = draw_reels(&mut rng);
        symbols.push(r.left);
        symbols.push(r.middle);
        symbols.push(r.right);
    }
    let first = symbols[0];
    assert!(symbols.iter().any(|s| *s != first));
    assert!(SYMBOL_COUNT == 6);
}

#[test]
fn payout_priority_strongest_first() {
    let table = standard_payout_table();
    let crab = ReelSymbol::RustyCrab;
    let rasp = ReelSymbol::Raspberry;
    // three of a kind, by symbol value
    assert_eq!(evaluate_reels(&table, &reels(crab, crab, crab)), 500000);
    assert_eq!(evaluate_reels(&table, &reels(rasp, rasp, rasp)), 250000);
    assert_eq!(
        evaluate_reels(
            &table,
            &reels(ReelSymbol::NodeJs, ReelSymbol::NodeJs, ReelSymbol::NodeJs)
        ),
        50000
    );
    assert_eq!(
        evaluate_reels(
            &table,
            &reels(
                ReelSymbol::JavaScript,
                ReelSymbol::JavaScript,
                ReelSymbol::JavaScript
            )
        ),
        37500
    );
    assert_eq!(
        evaluate_reels(
            &table,
            &reels(ReelSymbol::Python, ReelSymbol::Python, ReelSymbol::Python)
        ),
        25000
    );
    assert_eq!(
        evaluate_reels(
            &table,
            &reels(ReelSymbol::CSharp, ReelSymbol::CSharp, ReelSymbol::CSharp)
        ),
        12500
    );
    // two adjacent crabs beats the single-crab bonus, on either side
    assert_eq!(evaluate_reels(&table, &reels(crab, crab, rasp)), 7500);
    assert_eq!(evaluate_reels(&table, &reels(rasp, crab, crab)), 7500);
    // two adjacent raspberries beats a lone crab elsewhere
    assert_eq!(evaluate_reels(&table, &reels(crab, rasp, rasp)), 5000);
    // a single crab anywhere
    assert_eq!(evaluate_reels(&table, &reels(crab, rasp, ReelSymbol::NodeJs)), 100);
    assert_eq!(evaluate_reels(&table, &reels(rasp, ReelSymbol::NodeJs, crab)), 100);
    // no match at all
    assert_eq!(evaluate_reels(&table, &no_win_reels()), 0);
}

#[test]
fn win_scales_with_bet_units() {
    let mut m = demo_machine(64);
    m.on_deposit(Some(tok_a()));
    m.set_max_bet();
    assert_eq!(m.start_spin(), SpinStart::Started);
    let payout = m.settle_spin(reels(
        ReelSymbol::RustyCrab,
        ReelSymbol::RustyCrab,
        ReelSymbol::RustyCrab,
    ));
    assert_eq!(payout, 500000 * (2500 / 500));
    assert_eq!(m.balance(), 80000 - 2500 + 2500000);
}

#[test]
fn cashout_roundtrip_restores_balance() {
    let mut store = demo_store();
    let mut m = SlotMachine::boot(standard_payout_table(), &store, 2, 64, 5);
    m.on_deposit(Some(tok_a()));
    m.adjust_bet();
    assert_eq!(m.start_spin(), SpinStart::Started);
    m.settle_spin(no_win_reels());
    let cashed = m.balance();
    assert_eq!(cashed, 80000 - 1000);

    let out = m.on_cashout(Some(tok_a()), &mut store);
    assert_eq!(out, LedgerOutcome::Applied);
    assert_eq!(m.balance(), 0);

    // fresh boot from the rewritten store, then deposit the same token
    let mut m2 = SlotMachine::boot(standard_payout_table(), &store, 2, 64, 5);
    assert_eq!(m2.balance(), 0);
    let out = m2.on_deposit(Some(tok_a()));
    assert_eq!(out, LedgerOutcome::Applied);
    assert_eq!(m2.balance(), cashed);
    // the other slot is untouched
    m2.on_deposit(Some(tok_b()));
    assert_eq!(m2.balance(), 100000);
}

#[test]
fn unknown_token_leaves_balance_and_store_unchanged() {
    let mut store = demo_store();
    let mut m = SlotMachine::boot(standard_payout_table(), &store, 2, 64, 5);
    m.on_deposit(Some(tok_a()));
    let before_balance = m.balance();
    let before_store = store.clone();

    assert_eq!(m.on_deposit(Some(tok_unknown())), LedgerOutcome::UnknownToken);
    assert_eq!(m.balance(), before_balance);

    assert_eq!(
        m.on_cashout(Some(tok_unknown()), &mut store),
        LedgerOutcome::UnknownToken
    );
    assert_eq!(m.balance(), before_balance);
    assert_eq!(store, before_store);

    assert_eq!(m.on_deposit(None), LedgerOutcome::NoToken);
    assert_eq!(m.on_cashout(None, &mut store), LedgerOutcome::NoToken);
    assert_eq!(m.balance(), before_balance);
    assert_eq!(store, before_store);
}

#[test]
fn lagging_subscriber_sees_gap_then_only_fresh_events() {
    let mut bus = EventBus::new(4, 2);
    let mut sub = bus.subscribe().unwrap();
    // publish 7 events while the subscriber never polls: 3 more than its inbox
    for i in 0..7 {
        let e = if i % 2 == 0 { GameEvent::BetChanged } else { GameEvent::Spin };
        bus.publish(e);
    }
    // the gap is reported exactly, not silently skipped
    assert_eq!(sub.recv(&bus), RecvOutcome::Lagged(3));
    // it then receives exactly the 4 retained events, in publish order:
    // events 3,4,5,6 of the 0-based publish history
    assert_eq!(sub.recv(&bus), RecvOutcome::Message(GameEvent::Spin));
    assert_eq!(sub.recv(&bus), RecvOutcome::Message(GameEvent::BetChanged));
    assert_eq!(sub.recv(&bus), RecvOutcome::Message(GameEvent::Spin));
    assert_eq!(sub.recv(&bus), RecvOutcome::Message(GameEvent::BetChanged));
    // and no stale duplicate afterwards
    assert_eq!(sub.recv(&bus), RecvOutcome::Empty);
}

#[test]
fn publishing_never_blocks_on_a_stalled_subscriber() {
    let mut bus = EventBus::new(2, 2);
    let mut stalled = bus.subscribe().unwrap();
    let mut lively = bus.subscribe().unwrap();
    for _ in 0..100 {
        bus.publish(GameEvent::BetChanged);
        assert_eq!(lively.recv(&bus), RecvOutcome::Message(GameEvent::BetChanged));
    }
    assert_eq!(bus.published(), 100);
    assert_eq!(stalled.recv(&bus), RecvOutcome::Lagged(98));
}

#[test]
fn subscriber_limit_is_enforced() {
    let mut bus = EventBus::new(4, 2);
    assert!(bus.subscribe().is_some());
    assert!(bus.subscribe().is_some());
    assert!(bus.subscribe().is_none());
}

#[test]
fn collect_button_alternates_deposit_and_cashout() {
    let mut m = demo_machine(64);
    let mut sub = m.bus.subscribe().unwrap();
    assert!(m.deposit_is_next());
    m.press_collect();
    assert_eq!(sub.recv(&m.bus), RecvOutcome::Message(GameEvent::DepositRequested));
    assert!(!m.deposit_is_next());
    m.press_collect();
    assert_eq!(sub.recv(&m.bus), RecvOutcome::Message(GameEvent::CashoutRequested));
    assert!(m.deposit_is_next());
}

#[test]
fn record_codec_and_offsets() {
    let rec = CardRecord { id: tok_a(), value: 0x01020304 };
    let bytes = encode_record(&rec);
    assert_eq!(bytes, vec![80, 243, 109, 20, 1, 2, 3, 4]);
    assert_eq!(slot_offset(0), 0);
    assert_eq!(slot_offset(1), 8);
    assert_eq!(slot_offset(2), 16);

    let store = demo_store();
    let led = CardLedger::load_all(&store, 2);
    assert_eq!(led.slot_count(), 2);
    let r0 = led.record_at(0);
    let r1 = led.record_at(1);
    assert_eq!(r0.id, tok_a());
    assert_eq!(r0.value, 80000);
    assert_eq!(r1.id, tok_b());
    assert_eq!(r1.value, 100000);
}

#[test]
fn session_without_card_ledger_rejects_every_token() {
    let store: Vec<u8> = Vec::new();
    let mut m = SlotMachine::boot(standard_payout_table(), &store, 0, 8, 2);
    assert_eq!(m.on_deposit(Some(tok_a())), LedgerOutcome::UnknownToken);
    assert_eq!(m.balance(), 0);
    let mut empty = Vec::new();
    assert_eq!(m.on_cashout(Some(tok_a()), &mut empty), LedgerOutcome::UnknownToken);
    assert!(empty.is_empty());
}

#[test]
fn credit_saturates_at_storable_maximum() {
    let mut store = encode_record(&CardRecord { id: tok_a(), value: u32::MAX });
    let mut m = SlotMachine::boot(standard_payout_table(), &store, 1, 8, 2);
    m.on_deposit(Some(tok_a()));
    assert_eq!(m.balance(), u32::MAX as i64);
    assert_eq!(m.start_spin(), SpinStart::Started);
    let payout = m.settle_spin(reels(
        ReelSymbol::RustyCrab,
        ReelSymbol::RustyCrab,
        ReelSymbol::RustyCrab,
    ));
    assert_eq!(payout, 500000);
    // the credit is capped so that a cash-out can never truncate it
    assert_eq!(m.balance(), u32::MAX as i64);
    m.on_cashout(Some(tok_a()), &mut store);
    assert_eq!(store, encode_record(&CardRecord { id: tok_a(), value: u32::MAX }));
}

#[test]
fn concrete_scenario_deposit_spin_cashout() {
    let mut store = demo_store();
    let mut m = SlotMachine::boot(standard_payout_table(), &store, 2, 64, 5);

    // balance starts at 0; depositing the known token loads its stored 80000
    assert_eq!(m.balance(), 0);
    m.press_collect();
    assert_eq!(m.on_deposit(Some(tok_a())), LedgerOutcome::Applied);
    assert_eq!(m.balance(), 80000);

    // set the bet to 2500 and spin; the reels resolve to a non-winning
    // combination, so the balance lands at 77500 and the payout of 0 is
    // what signals the non-win message
    m.set_max_bet();
    assert_eq!(m.bet(), 2500);
    assert_eq!(m.start_spin(), SpinStart::Started);
    let payout = m.settle_spin(no_win_reels());
    assert_eq!(payout, 0);
    assert_eq!(m.balance(), 77500);

    // press cash-out: 77500 is written back to the token's slot and the
    // live balance is reset to 0
    m.press_collect();
    assert_eq!(m.on_cashout(Some(tok_a()), &mut store), LedgerOutcome::Applied);
    assert_eq!(m.balance(), 0);
    let expected = encode_record(&CardRecord { id: tok_a(), value: 77500 });
    assert_eq!(&store[0..8], &expected[..]);
    // the other slot is bit-for-bit unchanged
    let untouched = encode_record(&CardRecord { id: tok_b(), value: 100000 });
    assert_eq!(&store[8..16], &untouched[..]);
}
