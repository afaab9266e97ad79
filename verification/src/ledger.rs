//! The persistent store of the swap ledger: the registry of swap records and
//! the per-identity counters, under the two kinds of key.

use crate::error::SwapError;
use crate::identity::{same_digest, Address};
use crate::order::{OrderView, SwapOrder};
use vstd::prelude::*;

verus! {

/// A key of the store. The two kinds never collide.
#[derive(Debug, PartialEq, Eq)]
pub enum DataKey {
    /// The record of the swap with this identifier.
    Swap([u8; 32]),
    /// The counter of this identity.
    Nonce(Address),
}

/// A key as a mathematical value.
#[verifier::ext_equal]
pub enum KeyView {
    Swap(Seq<u8>),
    Nonce(Seq<u8>),
}

impl View for DataKey {
    type V = KeyView;

    open spec fn view(&self) -> KeyView {
        match self {
            DataKey::Swap(id) => KeyView::Swap(id@),
            DataKey::Nonce(owner) => KeyView::Nonce(owner@),
        }
    }
}

impl Clone for DataKey {
    fn clone(&self) -> (copy: Self)
        ensures
            copy@ == self@,
    {
        match self {
            DataKey::Swap(id) => DataKey::Swap(*id),
            DataKey::Nonce(owner) => DataKey::Nonce(owner.clone()),
        }
    }
}

/// What the store holds, as a mathematical value: the swap records by
/// identifier and the counters by identity.
#[verifier::ext_equal]
pub struct LedgerView {
    pub swaps: Map<Seq<u8>, OrderView>,
    pub nonces: Map<Seq<u8>, u32>,
}

impl LedgerView {
    /// The store with nothing in it.
    pub open spec fn empty() -> LedgerView {
        LedgerView { swaps: Map::empty(), nonces: Map::empty() }
    }

    /// Whether an entry stands under `key`.
    pub open spec fn contains(self, key: KeyView) -> bool {
        match key {
            KeyView::Swap(id) => self.swaps.contains_key(id),
            KeyView::Nonce(owner) => self.nonces.contains_key(owner),
        }
    }

    /// The record under `id`, if there is one.
    pub open spec fn swap(self, id: Seq<u8>) -> Option<OrderView> {
        if self.swaps.contains_key(id) {
            Some(self.swaps[id])
        } else {
            None
        }
    }

    /// The counter of `owner`: zero until it is first advanced.
    pub open spec fn nonce(self, owner: Seq<u8>) -> u32 {
        if self.nonces.contains_key(owner) {
            self.nonces[owner]
        } else {
            0
        }
    }

    /// Every record is valid and stands under its own hashlock.
    pub open spec fn consistent(self) -> bool {
        forall|id: Seq<u8>| #[trigger]
            self.swaps.contains_key(id) ==> self.swaps[id].valid() && self.swaps[id].hashlock == id
    }

    /// This store with `order` under its hashlock.
    pub open spec fn with_swap(self, order: OrderView) -> LedgerView {
        LedgerView { swaps: self.swaps.insert(order.hashlock, order), ..self }
    }

    /// This store with the counter of `owner` at `counter`.
    pub open spec fn with_nonce(self, owner: Seq<u8>, counter: u32) -> LedgerView {
        LedgerView { nonces: self.nonces.insert(owner, counter), ..self }
    }
}

/// One entry of the store, with its key inside it.
enum Slot {
    Swap { order: SwapOrder },
    Nonce { owner: Address, counter: u32 },
}

impl Slot {
    spec fn key(self) -> KeyView {
        match self {
            Slot::Swap { order } => KeyView::Swap(order.hashlock@),
            Slot::Nonce { owner, .. } => KeyView::Nonce(owner@),
        }
    }

    spec fn order(self) -> OrderView {
        match self {
            Slot::Swap { order } => order@,
            Slot::Nonce { .. } => arbitrary(),
        }
    }

    spec fn counter(self) -> u32 {
        match self {
            Slot::Swap { .. } => 0,
            Slot::Nonce { counter, .. } => counter,
        }
    }

    spec fn sound(self) -> bool {
        match self {
            Slot::Swap { order } => order@.valid(),
            Slot::Nonce { .. } => true,
        }
    }

    fn has_key(&self, key: &Lookup<'_>) -> (has: bool)
        ensures
            has == (self.key() == key.key()),
    {
        match (self, key) {
            (Slot::Swap { order }, Lookup::Swap(id)) => same_digest(&order.hashlock, id),
            (Slot::Nonce { owner, .. }, Lookup::Nonce(who)) => owner.same_as(who),
            _ => false,
        }
    }

    fn lookup(&self) -> (key: Lookup<'_>)
        ensures
            key.key() == self.key(),
    {
        match self {
            Slot::Swap { order } => Lookup::Swap(&order.hashlock),
            Slot::Nonce { owner, .. } => Lookup::Nonce(owner),
        }
    }
}

/// A key on loan, to look an entry up by.
enum Lookup<'a> {
    Swap(&'a [u8; 32]),
    Nonce(&'a Address),
}

impl<'a> Lookup<'a> {
    spec fn key(self) -> KeyView {
        match self {
            Lookup::Swap(id) => KeyView::Swap(id@),
            Lookup::Nonce(owner) => KeyView::Nonce(owner@),
        }
    }
}

spec fn holds(slots: Seq<Slot>, key: KeyView) -> bool {
    exists|i: int| 0 <= i < slots.len() && (#[trigger] slots[i]).key() == key
}

spec fn place(slots: Seq<Slot>, key: KeyView) -> int {
    choose|i: int| 0 <= i < slots.len() && (#[trigger] slots[i]).key() == key
}

spec fn distinct(slots: Seq<Slot>) -> bool {
    forall|i: int, j: int|
        0 <= i < j < slots.len() ==> (#[trigger] slots[i]).key() != (#[trigger] slots[j]).key()
}

spec fn all_sound(slots: Seq<Slot>) -> bool {
    forall|i: int| 0 <= i < slots.len() ==> (#[trigger] slots[i]).sound()
}

proof fn lemma_place(slots: Seq<Slot>, i: int)
    requires
        distinct(slots),
        0 <= i < slots.len(),
    ensures
        holds(slots, slots[i].key()),
        place(slots, slots[i].key()) == i,
{
    let found = place(slots, slots[i].key());
    if found < i {
        assert(slots[found].key() != slots[i].key());
    } else if i < found {
        assert(slots[i].key() != slots[found].key());
    }
}

spec fn view_of(slots: Seq<Slot>) -> LedgerView {
    LedgerView {
        swaps: Map::new(
            |id: Seq<u8>| holds(slots, KeyView::Swap(id)),
            |id: Seq<u8>| slots[place(slots, KeyView::Swap(id))].order(),
        ),
        nonces: Map::new(
            |owner: Seq<u8>| holds(slots, KeyView::Nonce(owner)),
            |owner: Seq<u8>| slots[place(slots, KeyView::Nonce(owner))].counter(),
        ),
    }
}

/// The store with `slot` written: its record or its counter under its key.
spec fn written(view: LedgerView, slot: Slot) -> LedgerView {
    match slot {
        Slot::Swap { order } => view.with_swap(order@),
        Slot::Nonce { owner, counter } => view.with_nonce(owner@, counter),
    }
}

/// Writing `slot` at `at`, over the entry with its key or behind the last
/// entry where there is none, keeps the keys distinct and changes the store
/// under that key only.
proof fn lemma_written(before: Seq<Slot>, after: Seq<Slot>, at: int, slot: Slot)
    requires
        distinct(before),
        0 <= at < after.len(),
        after[at] == slot,
        ({
            ||| after.len() == before.len() && before[at].key() == slot.key()
            ||| after.len() == before.len() + 1 && at == before.len() && !holds(before, slot.key())
        }),
        forall|j: int| 0 <= j < before.len() && j != at ==> after[j] == before[j],
    ensures
        distinct(after),
        view_of(after) == written(view_of(before), slot),
{
    assert forall|i: int, j: int| 0 <= i < j < after.len() implies (#[trigger] after[i]).key()
        != (#[trigger] after[j]).key() by {
        if j < before.len() {
            assert(before[i].key() != before[j].key());
        } else {
            assert(before[i].key() == after[i].key());
        }
    }
    assert forall|key: KeyView| #[trigger]
        holds(after, key) <==> holds(before, key) || key == slot.key() by {
        if holds(after, key) {
            let j = place(after, key);
            if j != at {
                assert(before[j].key() == key);
            }
        }
        if holds(before, key) {
            let j = place(before, key);
            assert(after[j].key() == key);
        }
    }
    assert forall|key: KeyView| #[trigger]
        holds(after, key) && key != slot.key() implies after[place(after, key)] == before[place(
        before,
        key,
    )] by {
        lemma_place(before, place(after, key));
    }
    lemma_place(after, at);
    assert(view_of(after).swaps =~= written(view_of(before), slot).swaps);
    assert(view_of(after).nonces =~= written(view_of(before), slot).nonces);
}

proof fn lemma_consistent(slots: Seq<Slot>)
    requires
        distinct(slots),
        all_sound(slots),
    ensures
        view_of(slots).consistent(),
{
    let view = view_of(slots);
    assert forall|id: Seq<u8>| #[trigger] view.swaps.contains_key(id) implies view.swaps[id].valid()
        && view.swaps[id].hashlock == id by {
        let j = place(slots, KeyView::Swap(id));
        assert(slots[j].sound() && slots[j].key() == KeyView::Swap(id));
    }
}

/// The store of the swap ledger. It is a plain value: the host's storage is
/// read into it before an operation and written from it afterwards.
pub struct SwapLedger {
    slots: Vec<Slot>,
}

impl View for SwapLedger {
    type V = LedgerView;

    closed spec fn view(&self) -> LedgerView {
        view_of(self.slots@)
    }
}

impl SwapLedger {
    /// What holds of every store: no key stands twice, and every record is
    /// valid.
    #[verifier::type_invariant]
    pub closed spec fn wf(self) -> bool {
        distinct(self.slots@) && all_sound(self.slots@)
    }

    /// In every store, each record is valid and stands under its own
    /// hashlock.
    pub proof fn lemma_consistent(self)
        requires
            self.wf(),
        ensures
            self@.consistent(),
    {
        lemma_consistent(self.slots@);
    }

    /// A store with nothing in it.
    pub fn new() -> (ledger: SwapLedger)
        ensures
            ledger@ == LedgerView::empty(),
    {
        SwapLedger { slots: Vec::new() }
    }

    fn find(&self, key: &Lookup<'_>) -> (found: Option<usize>)
        ensures
            match found {
                Some(i) => i < self.slots@.len() && self.slots@[i as int].key() == key.key(),
                None => !holds(self.slots@, key.key()),
            },
    {
        let mut i: usize = 0;
        while i < self.slots.len()
            invariant
                i <= self.slots@.len(),
                forall|j: int| 0 <= j < i ==> (#[trigger] self.slots@[j]).key() != key.key(),
            decreases self.slots@.len() - i,
        {
            if self.slots[i].has_key(key) {
                return Some(i);
            }
            i += 1;
        }
        None
    }

    /// Writes `slot` under its key, over what stood there.
    fn write(&mut self, slot: Slot)
        requires
            slot.sound(),
        ensures
            final(self)@ == written(old(self)@, slot),
    {
        proof {
            use_type_invariant(&*self);
        }
        let found = self.find(&slot.lookup());
        let ghost before = self.slots@;
        let mut slots: Vec<Slot> = Vec::new();
        core::mem::swap(&mut self.slots, &mut slots);
        match found {
            Some(i) => {
                slots[i] = slot;
                proof {
                    lemma_written(before, slots@, i as int, slot);
                }
            },
            None => {
                slots.push(slot);
                proof {
                    lemma_written(before, slots@, before.len() as int, slot);
                }
            },
        }
        core::mem::swap(&mut self.slots, &mut slots);
    }

    /// Whether an entry stands under `key`.
    pub fn contains(&self, key: &DataKey) -> (present: bool)
        ensures
            present == self@.contains(key@),
    {
        let found = match key {
            DataKey::Swap(id) => self.find(&Lookup::Swap(id)),
            DataKey::Nonce(owner) => self.find(&Lookup::Nonce(owner)),
        };
        found.is_some()
    }

    /// The record of the swap `id`, or `NotFound` where there is none.
    pub fn get(&self, id: &[u8; 32]) -> (found: Result<&SwapOrder, SwapError>)
        ensures
            self@.consistent(),
            match found {
                Ok(order) => self@.swap(id@) == Some(order@),
                Err(e) => e == SwapError::NotFound && self@.swap(id@).is_none(),
            },
    {
        proof {
            use_type_invariant(self);
            lemma_consistent(self.slots@);
        }
        match self.find(&Lookup::Swap(id)) {
            Some(i) => {
                proof {
                    lemma_place(self.slots@, i as int);
                }
                match &self.slots[i] {
                    Slot::Swap { order } => Ok(order),
                    Slot::Nonce { .. } => Err(SwapError::NotFound),
                }
            },
            None => Err(SwapError::NotFound),
        }
    }

    /// Records `order` under `id`, over any record that stood there, and
    /// returns the ledger sequence through which the host must keep it. A
    /// record that is not valid, or whose hashlock is not `id`, is refused
    /// with `StorageFailure`.
    pub fn put(&mut self, id: [u8; 32], order: SwapOrder) -> (done: Result<u64, SwapError>)
        ensures
            final(self)@.consistent(),
            match done {
                Ok(until) => {
                    &&& order@.valid() && order@.hashlock == id@
                    &&& until == order@.kept_until()
                    &&& final(self)@ == old(self)@.with_swap(order@)
                },
                Err(e) => {
                    &&& !(order@.valid() && order@.hashlock == id@)
                    &&& e == SwapError::StorageFailure
                    &&& final(self)@ == old(self)@
                },
            },
    {
        if order.is_valid() && same_digest(&order.hashlock, &id) {
            let until = order.kept_until();
            self.write(Slot::Swap { order });
            proof {
                use_type_invariant(&*self);
                lemma_consistent(self.slots@);
            }
            Ok(until)
        } else {
            proof {
                use_type_invariant(&*self);
                lemma_consistent(self.slots@);
            }
            Err(SwapError::StorageFailure)
        }
    }

    /// The counter of `owner`: zero until it is first advanced.
    pub fn nonce(&self, owner: &Address) -> (counter: u32)
        ensures
            counter == self@.nonce(owner@),
    {
        proof {
            use_type_invariant(self);
        }
        match self.find(&Lookup::Nonce(owner)) {
            Some(i) => {
                proof {
                    lemma_place(self.slots@, i as int);
                }
                match &self.slots[i] {
                    Slot::Nonce { counter, .. } => *counter,
                    Slot::Swap { .. } => 0,
                }
            },
            None => 0,
        }
    }

    /// Sets the counter of `owner`.
    pub fn set_nonce(&mut self, owner: Address, counter: u32)
        ensures
            final(self)@ == old(self)@.with_nonce(owner@, counter),
    {
        self.write(Slot::Nonce { owner, counter });
    }

    /// Hands out the counter of `owner` and advances it by one.
    pub fn next_nonce(&mut self, owner: &Address) -> (issued: u32)
        requires
            old(self)@.nonce(owner@) < u32::MAX,
        ensures
            issued == old(self)@.nonce(owner@),
            final(self)@ == old(self)@.with_nonce(owner@, (issued + 1) as u32),
    {
        let issued = self.nonce(owner);
        self.set_nonce(owner.clone(), issued + 1);
        issued
    }
}

} // verus!
