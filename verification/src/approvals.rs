//! Per-key address sets, as the multi-signature contracts keep them: the
//! signers who approved each proposal, the voters and eligible voters of
//! each dispute.
use vstd::prelude::*;

use crate::table::Table;

verus! {

/// The approvals of every proposal: a set of signers per proposal key.
pub struct ApprovalBook {
    pub sets: Table<Table<()>>,
}

impl ApprovalBook {
    pub open spec fn wf(&self) -> bool {
        &&& self.sets.wf()
        &&& forall|k: Seq<u8>| #[trigger] self.sets@.contains_key(k) ==> self.sets@[k].wf()
    }

    /// The signers who approved the proposal `k` (none for an unknown key).
    pub open spec fn of(&self, k: Seq<u8>) -> Set<Seq<u8>> {
        if self.sets@.contains_key(k) {
            self.sets@[k]@.dom()
        } else {
            Set::empty()
        }
    }

    pub open spec fn count(&self, k: Seq<u8>) -> nat {
        self.of(k).len()
    }

    /// The members of set `k` in storage order: each member once.
    pub open spec fn members(&self, k: Seq<u8>) -> Seq<Seq<u8>> {
        if self.sets@.contains_key(k) {
            self.sets@[k].key_seq()
        } else {
            Seq::empty()
        }
    }

    pub proof fn lemma_members(&self, k: Seq<u8>)
        requires
            self.wf(),
        ensures
            self.members(k).no_duplicates(),
            self.members(k).len() == self.count(k),
            forall|a: Seq<u8>| self.of(k).contains(a) <==> self.members(k).contains(a),
    {
        if self.sets@.contains_key(k) {
            self.sets@[k].lemma_key_seq();
        }
    }

    pub fn new() -> (b: Self)
        ensures
            b.wf(),
            forall|k: Seq<u8>| #[trigger] b.of(k) == Set::<Seq<u8>>::empty(),
    {
        ApprovalBook { sets: Table::new() }
    }

    /// Whether `who` approved proposal `key`.
    pub fn has(&self, key: &[u8], who: &[u8]) -> (r: bool)
        requires
            self.wf(),
        ensures
            r == self.of(key@).contains(who@),
    {
        match self.sets.get(key) {
            Some(set) => set.contains_key(who),
            None => false,
        }
    }

    /// How many signers approved proposal `key`.
    pub fn count_of(&self, key: &[u8]) -> (n: usize)
        requires
            self.wf(),
        ensures
            n == self.count(key@),
    {
        match self.sets.get(key) {
            Some(set) => set.len(),
            None => 0,
        }
    }

    /// Counting the members of set `k` that satisfy `p`, in storage order,
    /// counts the set's members that satisfy `p`.
    pub proof fn lemma_members_filter(&self, k: Seq<u8>, p: spec_fn(Seq<u8>) -> bool)
        requires
            self.wf(),
        ensures
            self.members(k).filter(p).len() == self.of(k).filter(p).len(),
    {
        self.lemma_members(k);
        lemma_filter_len_of_set(self.members(k), p);
        assert(self.members(k).to_set() =~= self.of(k));
    }

    /// Records `who`'s approval of proposal `key`.
    pub fn add(&mut self, key: Vec<u8>, who: Vec<u8>)
        requires
            old(self).wf(),
        ensures
            final(self).wf(),
            final(self).of(key@) == old(self).of(key@).insert(who@),
            forall|k: Seq<u8>| k != key@ ==> #[trigger] final(self).of(k) == old(self).of(k),
    {
        let ghost k = key@;
        let mut set = match self.sets.take(&key) {
            Some(s) => s,
            None => Table::new(),
        };
        set.insert(who, ());
        self.sets.insert(key, set);
        assert forall|k2: Seq<u8>| #[trigger] self.sets@.contains_key(k2) implies self.sets@[k2].wf() by {
            if k2 != k {
                assert(old(self).sets@.contains_key(k2));
            }
        }
        assert(self.of(k) =~= old(self).of(k).insert(who@));
    }

    /// Forgets every approval of proposal `key`.
    pub fn clear(&mut self, key: &[u8])
        requires
            old(self).wf(),
        ensures
            final(self).wf(),
            final(self).of(key@) == Set::<Seq<u8>>::empty(),
            forall|k: Seq<u8>| k != key@ ==> #[trigger] final(self).of(k) == old(self).of(k),
    {
        self.sets.remove(key);
        assert forall|k2: Seq<u8>| #[trigger] self.sets@.contains_key(k2) implies self.sets@[k2].wf() by {
            assert(old(self).sets@.contains_key(k2));
        }
    }
}

/// Filtering a sequence without duplicates counts the matching elements of
/// its set.
pub proof fn lemma_filter_len_of_set<A>(s: Seq<A>, p: spec_fn(A) -> bool)
    requires
        s.no_duplicates(),
    ensures
        s.filter(p).len() == s.to_set().filter(p).len(),
        s.filter(p).no_duplicates(),
    decreases s.len(),
{
    broadcast use vstd::seq_lib::group_seq_properties, vstd::set::group_set_axioms, vstd::set_lib::group_set_properties;

    if s.len() == 0 {
        assert(s.filter(p) =~= Seq::<A>::empty());
        assert(s.to_set().filter(p) =~= Set::<A>::empty());
    } else {
        let rest = s.drop_last();
        let x = s.last();
        assert(s =~= rest.push(x));
        assert(rest.no_duplicates());
        lemma_filter_len_of_set(rest, p);
        rest.lemma_filter_push(x, p);
        assert(!rest.contains(x));
        assert(!rest.filter(p).contains(x)) by {
            if rest.filter(p).contains(x) {
                rest.lemma_filter_contains_rev(p, x);
            }
        }
        assert(s.to_set() =~= rest.to_set().insert(x));
        rest.filter(p).unique_seq_to_set();
        if p(x) {
            assert(s.to_set().filter(p) =~= rest.to_set().filter(p).insert(x));
            assert(!rest.to_set().filter(p).contains(x));
        } else {
            assert(s.to_set().filter(p) =~= rest.to_set().filter(p));
        }
    }
}

/// Counting a prefix one element further adds that element if it matches.
pub proof fn lemma_take_filter_step<A>(s: Seq<A>, i: int, p: spec_fn(A) -> bool)
    requires
        0 <= i < s.len(),
    ensures
        s.take(i + 1).filter(p).len() == s.take(i).filter(p).len() + (if p(s[i]) { 1int } else { 0int }),
{
    assert(s.take(i + 1) =~= s.take(i).push(s[i]));
    s.take(i).lemma_filter_len_push(p, s[i]);
}

} // verus!
