//! Card records and the non-volatile record table.
//!
//! A physical token is identified by four identity bytes. The non-volatile
//! store is a flat table of fixed-size records at fixed byte offsets: four
//! identity bytes followed by the stored balance as four big-endian bytes.
//! At boot the whole table is read into an in-memory mirror; a cash-out
//! rewrites the table from the mirror.

use vstd::prelude::*;
use vstd::assert_seqs_equal;

verus! {

/// The fixed identity of a physical token: four bytes read from the card.
#[derive(Clone, Copy, PartialEq, Eq, Structural, Debug)]
pub struct TokenId {
    pub b0: u8,
    pub b1: u8,
    pub b2: u8,
    pub b3: u8,
}

/// One persisted record: a token identity and its stored balance.
#[derive(Clone, Copy, PartialEq, Eq, Structural, Debug)]
pub struct CardRecord {
    pub id: TokenId,
    pub value: u32,
}

/// Bytes per persisted record: four identity bytes, four balance bytes.
pub const RECORD_SIZE: usize = 8;

/// The most record slots a store can hold while every slot's byte offset
/// still fits the store's 16-bit addressing.
pub const MAX_SLOTS: usize = 8192;

/// A 32-bit value reassembled from its four big-endian bytes.
pub open spec fn u32_of_be(b0: u8, b1: u8, b2: u8, b3: u8) -> u32 {
    ((b0 as u32) << 24) | ((b1 as u32) << 16) | ((b2 as u32) << 8) | (b3 as u32)
}

/// The eight bytes of one record as laid out in the store.
pub open spec fn record_bytes(r: CardRecord) -> Seq<u8> {
    seq![
        r.id.b0,
        r.id.b1,
        r.id.b2,
        r.id.b3,
        (r.value >> 24) as u8,
        (r.value >> 16) as u8,
        (r.value >> 8) as u8,
        r.value as u8,
    ]
}

/// The record encoded at byte offset `off`.
pub open spec fn record_of_bytes(b: Seq<u8>, off: int) -> CardRecord
    recommends
        0 <= off,
        off + RECORD_SIZE <= b.len(),
{
    CardRecord {
        id: TokenId { b0: b[off], b1: b[off + 1], b2: b[off + 2], b3: b[off + 3] },
        value: u32_of_be(b[off + 4], b[off + 5], b[off + 6], b[off + 7]),
    }
}

/// The whole store image of a record table, slot after slot.
pub open spec fn image_bytes(rs: Seq<CardRecord>) -> Seq<u8>
    decreases rs.len(),
{
    if rs.len() == 0 {
        Seq::empty()
    } else {
        image_bytes(rs.drop_last()) + record_bytes(rs.last())
    }
}

/// The record table encoded in a store image of `n` slots.
pub open spec fn parse_image(b: Seq<u8>, n: int) -> Seq<CardRecord> {
    Seq::new(n as nat, |i: int| record_of_bytes(b, RECORD_SIZE * i))
}

/// Splitting a 32-bit value into big-endian bytes and reassembling them
/// gives the value back.
pub proof fn lemma_u32_be_round_trip(v: u32)
    ensures
        u32_of_be((v >> 24) as u8, (v >> 16) as u8, (v >> 8) as u8, v as u8) == v,
{
    assert((((v >> 24) as u8 as u32) << 24) | (((v >> 16) as u8 as u32) << 16) | (((v >> 8) as u8
        as u32) << 8) | (v as u8 as u32) == v) by (bit_vector);
}

/// Decoding the bytes of a record gives the record back.
pub proof fn lemma_record_round_trip(r: CardRecord)
    ensures
        record_of_bytes(record_bytes(r), 0) == r,
{
    lemma_u32_be_round_trip(r.value);
}

/// A store image is exactly one record long per slot.
pub proof fn lemma_image_len(rs: Seq<CardRecord>)
    ensures
        image_bytes(rs).len() == RECORD_SIZE * rs.len(),
    decreases rs.len(),
{
    if rs.len() > 0 {
        lemma_image_len(rs.drop_last());
    }
}

/// Slot `i` of a store image holds exactly the bytes of record `i`.
pub proof fn lemma_image_slot(rs: Seq<CardRecord>, i: int)
    requires
        0 <= i < rs.len(),
    ensures
        image_bytes(rs).subrange(RECORD_SIZE * i, RECORD_SIZE * i + RECORD_SIZE)
            == record_bytes(rs[i]),
    decreases rs.len(),
{
    lemma_image_len(rs);
    lemma_image_len(rs.drop_last());
    if i == rs.len() - 1 {
        assert_seqs_equal!(
            image_bytes(rs).subrange(RECORD_SIZE * i, RECORD_SIZE * i + RECORD_SIZE)
                == record_bytes(rs[i])
        );
    } else {
        lemma_image_slot(rs.drop_last(), i);
        assert_seqs_equal!(
            image_bytes(rs).subrange(RECORD_SIZE * i, RECORD_SIZE * i + RECORD_SIZE)
                == image_bytes(rs.drop_last()).subrange(
                    RECORD_SIZE * i,
                    RECORD_SIZE * i + RECORD_SIZE,
                )
        );
    }
}

/// Parsing a freshly written store image gives the record table back,
/// slot for slot.
pub proof fn lemma_parse_image_round_trip(rs: Seq<CardRecord>)
    ensures
        parse_image(image_bytes(rs), rs.len() as int) == rs,
{
    lemma_image_len(rs);
    assert forall|i: int| 0 <= i < rs.len() implies parse_image(image_bytes(rs), rs.len() as int)[i]
        == rs[i] by {
        lemma_image_slot(rs, i);
        let sub = image_bytes(rs).subrange(RECORD_SIZE * i, RECORD_SIZE * i + RECORD_SIZE);
        assert(record_of_bytes(image_bytes(rs), RECORD_SIZE * i) == record_of_bytes(sub, 0));
        lemma_record_round_trip(rs[i]);
        assert(sub == record_bytes(rs[i]));
    }
    assert_seqs_equal!(parse_image(image_bytes(rs), rs.len() as int) == rs);
}

/// The index of the first record whose identity matches, or -1 when none does.
pub open spec fn card_slot(cards: Seq<CardRecord>, id: TokenId) -> int
    decreases cards.len(),
{
    if cards.len() == 0 {
        -1
    } else if cards[0].id == id {
        0
    } else {
        let rest = card_slot(cards.skip(1), id);
        if rest < 0 {
            -1
        } else {
            rest + 1
        }
    }
}

/// What `card_slot` finds: -1 means no record matches; a non-negative result
/// is the first matching slot.
pub proof fn lemma_card_slot_properties(cards: Seq<CardRecord>, id: TokenId)
    ensures
        card_slot(cards, id) == -1 ==> forall|j: int|
            0 <= j < cards.len() ==> cards[j].id != id,
        card_slot(cards, id) != -1 ==> {
            &&& 0 <= card_slot(cards, id) < cards.len()
            &&& cards[card_slot(cards, id)].id == id
            &&& forall|j: int| 0 <= j < card_slot(cards, id) ==> cards[j].id != id
        },
    decreases cards.len(),
{
    if cards.len() > 0 && cards[0].id != id {
        lemma_card_slot_properties(cards.skip(1), id);
        let rest = card_slot(cards.skip(1), id);
        if rest == -1 {
            assert forall|j: int| 0 <= j < cards.len() implies cards[j].id != id by {
                if j > 0 {
                    assert(cards.skip(1)[j - 1] == cards[j]);
                }
            }
        } else {
            assert(cards.skip(1)[rest] == cards[rest + 1]);
            assert forall|j: int| 0 <= j < rest + 1 implies cards[j].id != id by {
                if j > 0 {
                    assert(cards.skip(1)[j - 1] == cards[j]);
                }
            }
        }
    }
}

/// A slot that matches and has no earlier match is the slot `card_slot` finds.
pub proof fn lemma_card_slot_of_first_match(cards: Seq<CardRecord>, id: TokenId, i: int)
    requires
        0 <= i < cards.len(),
        cards[i].id == id,
        forall|j: int| 0 <= j < i ==> cards[j].id != id,
    ensures
        card_slot(cards, id) == i,
{
    lemma_card_slot_properties(cards, id);
}

/// When no record matches, `card_slot` finds none.
pub proof fn lemma_card_slot_of_no_match(cards: Seq<CardRecord>, id: TokenId)
    requires
        forall|j: int| 0 <= j < cards.len() ==> cards[j].id != id,
    ensures
        card_slot(cards, id) == -1,
{
    lemma_card_slot_properties(cards, id);
}

/// The in-memory mirror of the non-volatile record table.
pub struct CardLedger {
    records: Vec<CardRecord>,
}

impl CardLedger {
    /// The mirrored record table.
    pub closed spec fn records_spec(&self) -> Seq<CardRecord> {
        self.records@
    }

    /// The mirror is small enough that every slot's offset fits the store's
    /// 16-bit addressing.
    pub open spec fn wf(&self) -> bool {
        self.records_spec().len() <= MAX_SLOTS
    }

    /// How many record slots the mirror (and so the store) holds.
    pub fn slot_count(&self) -> (n: usize)
        ensures
            n == self.records_spec().len(),
    {
        self.records.len()
    }

    /// The record in one slot of the mirror.
    pub fn record_at(&self, slot: usize) -> (r: CardRecord)
        requires
            slot < self.records_spec().len(),
        ensures
            r == self.records_spec()[slot as int],
    {
        self.records[slot]
    }

    /// Boot-time initialization: reads every fixed slot of the store image
    /// into the in-memory mirror. Must complete before any deposit is
    /// honoured, since a deposit consults the mirror.
    pub fn load_all(store: &Vec<u8>, slots: usize) -> (led: CardLedger)
        requires
            slots <= MAX_SLOTS,
            store@.len() == RECORD_SIZE * slots,
        ensures
            led.wf(),
            led.records_spec() == parse_image(store@, slots as int),
    {
        let mut records: Vec<CardRecord> = Vec::new();
        let mut i: usize = 0;
        while i < slots
            invariant
                0 <= i <= slots,
                slots <= MAX_SLOTS,
                store@.len() == RECORD_SIZE * slots,
                records@.len() == i,
                forall|j: int|
                    0 <= j < i ==> records@[j] == record_of_bytes(store@, RECORD_SIZE * j),
            decreases slots - i,
        {
            let off: usize = i * RECORD_SIZE;
            let value: u32 = ((store[off + 4] as u32) << 24) | ((store[off + 5] as u32) << 16) | ((
            store[off + 6] as u32) << 8) | (store[off + 7] as u32);
            records.push(
                CardRecord {
                    id: TokenId {
                        b0: store[off],
                        b1: store[off + 1],
                        b2: store[off + 2],
                        b3: store[off + 3],
                    },
                    value,
                },
            );
            i = i + 1;
        }
        let led = CardLedger { records };
        proof {
            assert_seqs_equal!(led.records@ == parse_image(store@, slots as int));
        }
        led
    }

    /// Writes every in-memory record back across all fixed slots of the
    /// store image, each at its slot's byte offset.
    pub fn persist_all(&self, store: &mut Vec<u8>)
        requires
            self.wf(),
            old(store)@.len() == RECORD_SIZE * self.records_spec().len(),
        ensures
            final(store)@ == image_bytes(self.records_spec()),
            final(store)@.len() == old(store)@.len(),
    {
        proof {
            lemma_image_len(self.records@);
        }
        let n: usize = self.records.len();
        let mut i: usize = 0;
        while i < n
            invariant
                0 <= i <= n,
                n == self.records@.len(),
                n <= MAX_SLOTS,
                store@.len() == RECORD_SIZE * n,
                image_bytes(self.records@).len() == RECORD_SIZE * n,
                forall|k: int|
                    0 <= k < RECORD_SIZE * i ==> store@[k] == image_bytes(self.records@)[k],
            decreases n - i,
        {
            let off: usize = i * RECORD_SIZE;
            let r = self.records[i];
            store[off] = r.id.b0;
            store[off + 1] = r.id.b1;
            store[off + 2] = r.id.b2;
            store[off + 3] = r.id.b3;
            store[off + 4] = #[verifier::truncate] ((r.value >> 24) as u8);
            store[off + 5] = #[verifier::truncate] ((r.value >> 16) as u8);
            store[off + 6] = #[verifier::truncate] ((r.value >> 8) as u8);
            store[off + 7] = #[verifier::truncate] (r.value as u8);
            proof {
                lemma_image_slot(self.records@, i as int);
                let im = image_bytes(self.records@);
                let sub = im.subrange(RECORD_SIZE * i, RECORD_SIZE * i + RECORD_SIZE);
                assert(forall|k: int|
                    0 <= k < RECORD_SIZE ==> im[RECORD_SIZE * i + k] == sub[k]);
            }
            i = i + 1;
        }
        proof {
            assert_seqs_equal!(store@ == image_bytes(self.records@));
        }
    }

    /// The first slot whose record matches the token identity, if any.
    pub fn find_slot(&self, id: TokenId) -> (r: Option<usize>)
        ensures
            r matches Some(i) ==> {
                &&& i < self.records_spec().len()
                &&& self.records_spec()[i as int].id == id
                &&& forall|j: int| 0 <= j < i ==> self.records_spec()[j].id != id
            },
            r is None ==> forall|j: int|
                0 <= j < self.records_spec().len() ==> self.records_spec()[j].id != id,
            r matches Some(i) ==> card_slot(self.records_spec(), id) == i,
            r is None ==> card_slot(self.records_spec(), id) == -1,
    {
        let n: usize = self.records.len();
        let mut i: usize = 0;
        while i < n
            invariant
                0 <= i <= n,
                n == self.records@.len(),
                forall|j: int| 0 <= j < i ==> self.records@[j].id != id,
            decreases n - i,
        {
            if self.records[i].id == id {
                proof {
                    lemma_card_slot_of_first_match(self.records@, id, i as int);
                }
                return Some(i);
            }
            i = i + 1;
        }
        proof {
            lemma_card_slot_of_no_match(self.records@, id);
        }
        None
    }

    /// Overwrites the stored balance of one slot in the mirror. The store
    /// itself is only rewritten by a later `persist_all`.
    pub fn set_value(&mut self, slot: usize, value: u32)
        requires
            old(self).wf(),
            slot < old(self).records_spec().len(),
        ensures
            final(self).wf(),
            final(self).records_spec() == old(self).records_spec().update(
                slot as int,
                CardRecord { id: old(self).records_spec()[slot as int].id, value },
            ),
    {
        let id = self.records[slot].id;
        self.records[slot] = CardRecord { id, value };
    }
}

/// The eight bytes a record occupies in the store, ready for one fixed-size
/// block write.
pub fn encode_record(r: &CardRecord) -> (b: Vec<u8>)
    ensures
        b@ == record_bytes(*r),
{
    let mut b: Vec<u8> = Vec::new();
    b.push(r.id.b0);
    b.push(r.id.b1);
    b.push(r.id.b2);
    b.push(r.id.b3);
    b.push(#[verifier::truncate] ((r.value >> 24) as u8));
    b.push(#[verifier::truncate] ((r.value >> 16) as u8));
    b.push(#[verifier::truncate] ((r.value >> 8) as u8));
    b.push(#[verifier::truncate] (r.value as u8));
    proof {
        assert_seqs_equal!(b@ == record_bytes(*r));
    }
    b
}

/// The byte offset of a record slot in the store: slot index times record
/// size, which fits the store's 16-bit addressing for every allowed slot.
pub fn slot_offset(slot: usize) -> (off: u16)
    requires
        slot < MAX_SLOTS,
    ensures
        off == RECORD_SIZE * slot,
{
    (slot * RECORD_SIZE) as u16
}

} // verus!
