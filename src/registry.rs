//! The store: at most one record per owner identity.
use vstd::prelude::*;

use crate::error::ErrorCode;
use crate::identity::Identity;
use crate::lifecycle::{after_purchase, purchase_result, ProductAccount, Record};

verus! {

/// Whether no two records share an owner.
pub open spec fn owners_unique(s: Seq<Record>) -> bool {
    forall|i: int, j: int|
        0 <= i < s.len() && 0 <= j < s.len() && #[trigger] s[i].owner == #[trigger] s[j].owner
            ==> i == j
}

/// The slots that a sequence of records fills, keyed by owner.
pub open spec fn slots_of(s: Seq<Record>) -> Map<Seq<u8>, Record> {
    Map::new(
        |k: Seq<u8>| exists|i: int| 0 <= i < s.len() && s[i].owner == k,
        |k: Seq<u8>| s[choose|i: int| 0 <= i < s.len() && s[i].owner == k],
    )
}

proof fn lemma_slot_at(s: Seq<Record>, i: int)
    requires
        owners_unique(s),
        0 <= i < s.len(),
    ensures
        slots_of(s).contains_key(s[i].owner),
        slots_of(s)[s[i].owner] == s[i],
{
    let k = s[i].owner;
    assert(exists|j: int| 0 <= j < s.len() && s[j].owner == k);
    let j = choose|j: int| 0 <= j < s.len() && s[j].owner == k;
    assert(s[j].owner == s[i].owner);
}

proof fn lemma_slots_push(s: Seq<Record>, r: Record)
    requires
        owners_unique(s),
        !slots_of(s).contains_key(r.owner),
    ensures
        owners_unique(s.push(r)),
        slots_of(s.push(r)) == slots_of(s).insert(r.owner, r),
{
    let t = s.push(r);
    assert forall|i: int, j: int|
        0 <= i < t.len() && 0 <= j < t.len() && #[trigger] t[i].owner == #[trigger] t[j].owner
        implies i == j by {
        if i < s.len() && j == s.len() {
            assert(s[i].owner == r.owner);
        } else if j < s.len() && i == s.len() {
            assert(s[j].owner == r.owner);
        } else if i < s.len() && j < s.len() {
            assert(s[i].owner == s[j].owner);
        }
    }
    assert forall|k: Seq<u8>| #[trigger] slots_of(t).contains_key(k) <==> slots_of(s).insert(r.owner, r).contains_key(k) by {
        if slots_of(s).contains_key(k) {
            let j = choose|j: int| 0 <= j < s.len() && s[j].owner == k;
            assert(t[j].owner == k);
        }
        if k == r.owner {
            assert(t[s.len() as int].owner == k);
        }
        if slots_of(t).contains_key(k) {
            let j = choose|j: int| 0 <= j < t.len() && t[j].owner == k;
            if j < s.len() {
                assert(s[j].owner == k);
            }
        }
    }
    assert forall|k: Seq<u8>| #[trigger] slots_of(t).contains_key(k) implies slots_of(t)[k] == slots_of(s).insert(r.owner, r)[k] by {
        let j = choose|j: int| 0 <= j < t.len() && t[j].owner == k;
        lemma_slot_at(t, j);
        if j < s.len() {
            assert(s[j] == t[j]);
            lemma_slot_at(s, j);
        }
    }
    assert(slots_of(t) =~= slots_of(s).insert(r.owner, r));
}

proof fn lemma_slots_update(s: Seq<Record>, i: int, r: Record)
    requires
        owners_unique(s),
        0 <= i < s.len(),
        r.owner == s[i].owner,
    ensures
        owners_unique(s.update(i, r)),
        slots_of(s.update(i, r)) == slots_of(s).insert(r.owner, r),
{
    let t = s.update(i, r);
    assert forall|a: int, b: int|
        0 <= a < t.len() && 0 <= b < t.len() && #[trigger] t[a].owner == #[trigger] t[b].owner
        implies a == b by {
        assert(s[a].owner == t[a].owner && s[b].owner == t[b].owner);
    }
    lemma_slot_at(s, i);
    assert forall|k: Seq<u8>| #[trigger] slots_of(t).contains_key(k) <==> slots_of(s).contains_key(k) by {
        if slots_of(s).contains_key(k) {
            let j = choose|j: int| 0 <= j < s.len() && s[j].owner == k;
            assert(t[j].owner == k);
        }
        if slots_of(t).contains_key(k) {
            let j = choose|j: int| 0 <= j < t.len() && t[j].owner == k;
            assert(s[j].owner == k);
        }
    }
    assert forall|k: Seq<u8>| #[trigger] slots_of(t).contains_key(k) implies slots_of(t)[k] == slots_of(s).insert(r.owner, r)[k] by {
        let j = choose|j: int| 0 <= j < t.len() && t[j].owner == k;
        lemma_slot_at(t, j);
        if j != i {
            lemma_slot_at(s, j);
        }
    }
    assert(slots_of(t) =~= slots_of(s).insert(r.owner, r));
}

proof fn lemma_slots_remove(s: Seq<Record>, i: int)
    requires
        owners_unique(s),
        0 <= i < s.len(),
    ensures
        owners_unique(s.remove(i)),
        slots_of(s.remove(i)) == slots_of(s).remove(s[i].owner),
{
    let t = s.remove(i);
    let gone = s[i].owner;
    assert forall|a: int, b: int|
        0 <= a < t.len() && 0 <= b < t.len() && #[trigger] t[a].owner == #[trigger] t[b].owner
        implies a == b by {
        let sa = if a < i { a } else { a + 1 };
        let sb = if b < i { b } else { b + 1 };
        assert(s[sa].owner == s[sb].owner);
    }
    assert forall|k: Seq<u8>| #[trigger] slots_of(t).contains_key(k) <==> slots_of(s).remove(gone).contains_key(k) by {
        if slots_of(s).contains_key(k) && k != gone {
            let j = choose|j: int| 0 <= j < s.len() && s[j].owner == k;
            if j < i {
                assert(t[j].owner == k);
            } else {
                assert(j != i);
                assert(t[j - 1].owner == k);
            }
        }
        if slots_of(t).contains_key(k) {
            let j = choose|j: int| 0 <= j < t.len() && t[j].owner == k;
            let sj = if j < i { j } else { j + 1 };
            assert(s[sj].owner == k);
            assert(sj != i);
        }
    }
    assert forall|k: Seq<u8>| #[trigger] slots_of(t).contains_key(k) implies slots_of(t)[k] == slots_of(s).remove(gone)[k] by {
        let j = choose|j: int| 0 <= j < t.len() && t[j].owner == k;
        lemma_slot_at(t, j);
        let sj = if j < i { j } else { j + 1 };
        assert(s[sj] == t[j]);
        lemma_slot_at(s, sj);
    }
    assert(slots_of(t) =~= slots_of(s).remove(gone));
}

/// All records of the registry, each bound to the slot of its owner, and
/// the text of the one company that may create and delete them.
pub struct ProductRegistry {
    company: String,
    accounts: Vec<ProductAccount>,
}

impl View for ProductRegistry {
    type V = Map<Seq<u8>, Record>;

    closed spec fn view(&self) -> Map<Seq<u8>, Record> {
        slots_of(self.records())
    }
}

impl ProductRegistry {
    closed spec fn records(&self) -> Seq<Record> {
        self.accounts@.map_values(|a: ProductAccount| a@)
    }

    /// The configured company, as the base58 text of its key.
    pub closed spec fn company(&self) -> Seq<char> {
        self.company@
    }

    /// What the registry always satisfies: one record per owner, each
    /// bound to its owner's slot, each well formed.
    pub closed spec fn wf(&self) -> bool {
        &&& owners_unique(self.records())
        &&& forall|k: Seq<u8>| #[trigger] self@.contains_key(k) ==> self@[k].wf() && self@[k].owner == k
    }

    /// Every stored record is well formed and sits in its owner's slot.
    pub proof fn lemma_records_well_formed(&self)
        requires
            self.wf(),
        ensures
            forall|k: Seq<u8>| #[trigger] self@.contains_key(k) ==> self@[k].wf() && self@[k].owner == k,
    {
    }

    /// An empty registry in which `company` may create and delete records.
    pub fn new(company: String) -> (r: ProductRegistry)
        ensures
            r.wf(),
            r.company() == company@,
            r@ == Map::<Seq<u8>, Record>::empty(),
    {
        let r = ProductRegistry { company, accounts: Vec::new() };
        assert(r.records() =~= Seq::<Record>::empty());
        assert(r@ =~= Map::<Seq<u8>, Record>::empty());
        r
    }

    /// The configured company.
    pub fn company_text(&self) -> (r: &String)
        ensures
            r@ == self.company(),
    {
        &self.company
    }

    /// The position of the record in `slot`, if one is bound there.
    fn find(&self, slot: &Identity) -> (r: Option<usize>)
        requires
            self.wf(),
        ensures
            r is None ==> !self@.contains_key(slot@),
            r is Some ==> r->0 < self.accounts.len() && self.records()[r->0 as int].owner == slot@
                && self@.contains_key(slot@) && self@[slot@] == self.records()[r->0 as int],
    {
        let mut i: usize = 0;
        while i < self.accounts.len()
            invariant
                self.wf(),
                0 <= i <= self.accounts.len(),
                forall|j: int| 0 <= j < i ==> self.records()[j].owner != slot@,
            decreases self.accounts.len() - i,
        {
            if self.accounts[i].owner.same_as(slot) {
                proof {
                    lemma_slot_at(self.records(), i as int);
                }
                return Some(i);
            }
            i = i + 1;
        }
        None
    }

    /// The record in `slot`, if one is bound there.
    pub fn account(&self, slot: &Identity) -> (r: Option<&ProductAccount>)
        requires
            self.wf(),
        ensures
            r is None <==> !self@.contains_key(slot@),
            r is Some ==> r->0@ == self@[slot@],
    {
        match self.find(slot) {
            None => None,
            Some(i) => Some(&self.accounts[i]),
        }
    }

    /// Binds `account` to the slot of its owner, which must be free.
    pub fn bind(&mut self, account: ProductAccount) -> (r: Result<(), ErrorCode>)
        requires
            old(self).wf(),
            account@.wf(),
        ensures
            final(self).wf(),
            final(self).company() == old(self).company(),
            r == (if old(self)@.contains_key(account@.owner) {
                Err(ErrorCode::SlotAlreadyBound)
            } else {
                Ok(())
            }),
            r is Err ==> final(self)@ == old(self)@,
            r is Ok ==> final(self)@ == old(self)@.insert(account@.owner, account@),
    {
        match self.find(&account.owner) {
            Some(_) => Err(ErrorCode::SlotAlreadyBound),
            None => {
                let ghost before = self.records();
                let ghost rec = account@;
                self.accounts.push(account);
                proof {
                    assert(self.records() =~= before.push(rec));
                    lemma_slots_push(before, rec);
                }
                Ok(())
            },
        }
    }

    /// Unbinds the record in `slot`, if any, and hands it back.
    pub fn unbind(&mut self, slot: &Identity) -> (r: Option<ProductAccount>)
        requires
            old(self).wf(),
        ensures
            final(self).wf(),
            final(self).company() == old(self).company(),
            r is None <==> !old(self)@.contains_key(slot@),
            r is Some ==> r->0@ == old(self)@[slot@],
            final(self)@ == old(self)@.remove(slot@),
    {
        match self.find(slot) {
            None => {
                assert(self@ =~= self@.remove(slot@));
                None
            },
            Some(i) => {
                let ghost before = self.records();
                let account = self.accounts.remove(i);
                proof {
                    assert(self.records() =~= before.remove(i as int));
                    lemma_slots_remove(before, i as int);
                }
                Some(account)
            },
        }
    }

    /// Tries to buy the record in `slot`, presenting `product_id`, at time
    /// `now`.
    pub fn purchase(&mut self, slot: &Identity, product_id: &String, now: i64) -> (r: Result<
        (),
        ErrorCode,
    >)
        requires
            old(self).wf(),
            old(self)@.contains_key(slot@) ==> old(self)@[slot@].updated_at <= now,
        ensures
            final(self).wf(),
            final(self).company() == old(self).company(),
            r == buy_result(old(self)@, slot@, product_id@),
            final(self)@ == after_buy(old(self)@, slot@, product_id@, now),
    {
        match self.find(slot) {
            None => {
                assert(self@ =~= after_buy(self@, slot@, product_id@, now));
                Err(ErrorCode::NotFound)
            },
            Some(i) => {
                let ghost before = self.records();
                let r = self.accounts[i].purchase(product_id, now);
                proof {
                    let rec = after_purchase(before[i as int], product_id@, now);
                    assert(self.records() =~= before.update(i as int, rec));
                    lemma_slots_update(before, i as int, rec);
                }
                r
            },
        }
    }
}

/// What a purchase of `product_id` from `slot` returns.
pub open spec fn buy_result(m: Map<Seq<u8>, Record>, slot: Seq<u8>, product_id: Seq<char>) -> Result<
    (),
    ErrorCode,
> {
    if m.contains_key(slot) {
        purchase_result(m[slot], product_id)
    } else {
        Err(ErrorCode::NotFound)
    }
}

/// The slots after a purchase of `product_id` from `slot` at time `now`.
pub open spec fn after_buy(
    m: Map<Seq<u8>, Record>,
    slot: Seq<u8>,
    product_id: Seq<char>,
    now: i64,
) -> Map<Seq<u8>, Record> {
    if m.contains_key(slot) {
        m.insert(slot, after_purchase(m[slot], product_id, now))
    } else {
        m
    }
}

} // verus!
