//! A set of addresses, kept and listed in ascending order.

use vstd::prelude::*;
use crate::keyed::{
    ascending, has_key, key_at, lemma_ascending_insert, lemma_ascending_remove, lemma_place,
    place_of, strict_total, to_map,
};
use crate::order::{lemma_str_lt_total, lemma_str_lt_transitive, str_lt, string_lt};
use crate::types::{clone_strings, strs_view};

verus! {

/// An address is its own key.
pub open spec fn address_key() -> spec_fn(Seq<char>) -> Seq<char> {
    |a: Seq<char>| a
}

/// The order on addresses.
pub open spec fn address_order() -> spec_fn(Seq<char>, Seq<char>) -> bool {
    |a: Seq<char>, b: Seq<char>| str_lt(a, b)
}

/// The order on addresses is strict and total.
pub proof fn lemma_address_order_strict()
    ensures
        strict_total(address_order()),
{
    let lt = address_order();
    assert forall|a: Seq<char>| !#[trigger] lt(a, a) by {
        lemma_str_lt_total(a, a);
    }
    assert forall|a: Seq<char>, b: Seq<char>, c: Seq<char>| #[trigger] lt(a, b) && #[trigger] lt(
        b,
        c,
    ) implies lt(a, c) by {
        lemma_str_lt_transitive(a, b, c);
    }
    assert forall|a: Seq<char>, b: Seq<char>| a == b || #[trigger] lt(a, b) || lt(b, a) by {
        lemma_str_lt_total(a, b);
    }
}

/// A set of addresses.
#[derive(Debug)]
pub struct AddressSet {
    entries: Vec<String>,
}

impl View for AddressSet {
    type V = Set<Seq<char>>;

    /// The addresses in the set.
    open spec fn view(&self) -> Set<Seq<char>> {
        to_map(self.entries(), address_key()).dom()
    }
}

impl AddressSet {
    /// The addresses in the order in which the set keeps and lists them.
    pub closed spec fn entries(&self) -> Seq<Seq<char>> {
        strs_view(self.entries@)
    }

    /// The set keeps its addresses in strictly ascending order, so none
    /// occurs twice.
    pub open spec fn wf(&self) -> bool {
        ascending(self.entries(), address_key(), address_order())
    }

    /// The empty set.
    pub fn new() -> (s: Self)
        ensures
            s.wf(),
            s.entries() == Seq::<Seq<char>>::empty(),
            s@ == Set::<Seq<char>>::empty(),
    {
        let s = AddressSet { entries: Vec::new() };
        assert(s.entries() =~= Seq::<Seq<char>>::empty());
        assert(s@ =~= Set::<Seq<char>>::empty()) by {
            assert forall|k: Seq<char>| !has_key(s.entries(), address_key(), k) by {
                assert forall|i: int| !key_at(s.entries(), address_key(), k, i) by {}
            }
        }
        s
    }

    /// How many addresses the set holds.
    pub fn len(&self) -> (n: usize)
        ensures
            n == self.entries().len(),
    {
        self.entries.len()
    }

    /// The place of `address` in the set's order.
    fn locate(&self, address: &String) -> (p: usize)
        ensures
            place_of(self.entries(), address_key(), address_order(), address@, p as int),
    {
        let mut i: usize = 0;
        while i < self.entries.len() && string_lt(&self.entries[i], address)
            invariant
                i <= self.entries.len(),
                forall|j: int|
                    0 <= j < i ==> address_order()(
                        address_key()(#[trigger] self.entries()[j]),
                        address@,
                    ),
            decreases self.entries.len() - i,
        {
            i = i + 1;
        }
        i
    }

    /// Whether `address` is in the set.
    pub fn has(&self, address: &String) -> (r: bool)
        requires
            self.wf(),
        ensures
            r == self@.contains(address@),
    {
        let p = self.locate(address);
        proof {
            lemma_address_order_strict();
            lemma_place(self.entries(), address_key(), address_order(), address@, p as int);
        }
        p < self.entries.len() && self.entries[p] == *address
    }

    /// Puts `address` into the set; an address that is in it already changes
    /// nothing.
    pub fn insert(&mut self, address: String)
        requires
            old(self).wf(),
        ensures
            final(self).wf(),
            final(self)@ == old(self)@.insert(address@),
    {
        let ghost s = self.entries();
        let p = self.locate(&address);
        proof {
            lemma_address_order_strict();
            lemma_place(s, address_key(), address_order(), address@, p as int);
        }
        if p < self.entries.len() && self.entries[p] == address {
            assert(self@ =~= self@.insert(address@)) by {
                assert(key_at(s, address_key(), address@, p as int));
            }
        } else {
            proof {
                lemma_ascending_insert(s, address_key(), address_order(), p as int, address@);
                assert(s.insert(p as int, address@) =~= strs_view(
                    self.entries@.insert(p as int, address),
                ));
            }
            self.entries.insert(p, address);
        }
    }

    /// Takes `address` out of the set; an address that is not in it changes
    /// nothing.
    pub fn remove(&mut self, address: &String)
        requires
            old(self).wf(),
        ensures
            final(self).wf(),
            final(self)@ == old(self)@.remove(address@),
    {
        let ghost s = self.entries();
        let p = self.locate(address);
        proof {
            lemma_address_order_strict();
            lemma_place(s, address_key(), address_order(), address@, p as int);
        }
        if p < self.entries.len() && self.entries[p] == *address {
            proof {
                lemma_ascending_remove(s, address_key(), address_order(), p as int);
                assert(s.remove(p as int) =~= strs_view(self.entries@.remove(p as int)));
            }
            self.entries.remove(p);
        } else {
            assert(self@ =~= self@.remove(address@));
        }
    }

    /// The addresses of the set, each once, in ascending order.
    pub fn list(&self) -> (r: Vec<String>)
        requires
            self.wf(),
        ensures
            strs_view(r@) == self.entries(),
            ascending(strs_view(r@), address_key(), address_order()),
            forall|a: Seq<char>| self@.contains(a) <==> strs_view(r@).contains(a),
    {
        proof {
            self.lemma_listed();
        }
        clone_strings(&self.entries)
    }

    /// Every address of the set is listed, and nothing else.
    pub proof fn lemma_listed(&self)
        requires
            self.wf(),
        ensures
            forall|a: Seq<char>| self@.contains(a) <==> self.entries().contains(a),
    {
        assert forall|a: Seq<char>| self@.contains(a) <==> self.entries().contains(a) by {
            if self@.contains(a) {
                let i = choose|i: int| key_at(self.entries(), address_key(), a, i);
                assert(self.entries()[i] == a);
            }
            if self.entries().contains(a) {
                let i = choose|i: int| 0 <= i < self.entries().len() && self.entries()[i] == a;
                assert(key_at(self.entries(), address_key(), a, i));
            }
        }
    }
}

} // verus!
