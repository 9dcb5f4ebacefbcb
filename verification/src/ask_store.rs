//! The listing store: every ask under its key, kept and listed in ascending
//! key order.

use vstd::prelude::*;
use crate::keyed::{
    ascending, chosen_before, has_key, key_at, lemma_ascending_insert, lemma_ascending_remove,
    lemma_ascending_unique, lemma_ascending_update, lemma_choose_next, lemma_filed_under_key,
    lemma_filter_next, lemma_filter_none, lemma_lookup, lemma_page_of_prefix, lemma_place, page,
    place_of, to_map,
};
use crate::order::{lemma_pair_order_strict, pair_before, pair_lt, pair_order, str_lt, string_lt};
use crate::state::{asks_view, Ask, AskKey, AskView, TokenId};
use crate::types::opt_str_view;

verus! {

/// Page size of a range query that names none.
pub const DEFAULT_QUERY_LIMIT: u32 = 10;

/// Largest page size of a range query.
pub const MAX_QUERY_LIMIT: u32 = 30;

/// The key function of asks.
pub open spec fn ask_key_fn() -> spec_fn(AskView) -> AskKey {
    |a: AskView| a.key()
}

/// The asks of `s` stand in strictly ascending order of collection, then
/// item.
pub open spec fn asks_ascend(s: Seq<AskView>) -> bool {
    ascending(s, ask_key_fn(), pair_order())
}

/// The number of records that a range query returns at most: the limit asked
/// for, capped at `MAX_QUERY_LIMIT`, or `DEFAULT_QUERY_LIMIT` where none is
/// named.
pub open spec fn page_limit(limit: Option<u32>) -> nat {
    match limit {
        Some(l) => if l <= MAX_QUERY_LIMIT {
            l as nat
        } else {
            MAX_QUERY_LIMIT as nat
        },
        None => DEFAULT_QUERY_LIMIT as nat,
    }
}

/// The number of records that a range query returns at most.
pub fn page_cap(limit: Option<u32>) -> (cap: usize)
    ensures
        cap == page_limit(limit),
{
    match limit {
        Some(l) => if l <= MAX_QUERY_LIMIT {
            l as usize
        } else {
            MAX_QUERY_LIMIT as usize
        },
        None => DEFAULT_QUERY_LIMIT as usize,
    }
}

/// Asks of `collection` whose item comes after the cursor.
pub open spec fn in_collection_after(collection: Seq<char>, start_after: Option<Seq<char>>)
    -> spec_fn(AskView) -> bool {
    |a: AskView|
        a.collection == collection && match start_after {
            Some(t) => str_lt(t, a.token_id),
            None => true,
        }
}

/// Asks of `seller` whose key comes after the cursor.
pub open spec fn by_seller_after(seller: Seq<char>, start_after: Option<AskKey>) -> spec_fn(
    AskView,
) -> bool {
    |a: AskView|
        a.seller == seller && match start_after {
            Some(k) => pair_lt(k, a.key()),
            None => true,
        }
}

/// View of a cursor into the asks of a seller.
pub open spec fn cursor_view(c: Option<(String, TokenId)>) -> Option<AskKey> {
    match c {
        Some(k) => Some((k.0@, k.1@)),
        None => None,
    }
}

/// Every ask of the marketplace, at most one for each collection and item.
#[derive(Debug)]
pub struct AskStore {
    entries: Vec<Ask>,
}

impl View for AskStore {
    type V = Map<AskKey, AskView>;

    /// The asks by key.
    open spec fn view(&self) -> Map<AskKey, AskView> {
        to_map(self.entries(), ask_key_fn())
    }
}

impl AskStore {
    /// The asks in the order in which the store keeps and lists them.
    pub closed spec fn entries(&self) -> Seq<AskView> {
        asks_view(self.entries@)
    }

    /// The store keeps its asks in strictly ascending key order, so no key
    /// occurs twice.
    pub open spec fn wf(&self) -> bool {
        asks_ascend(self.entries())
    }

    /// Every ask is listed under its own key.
    pub proof fn lemma_keyed(&self)
        ensures
            forall|k: AskKey| #[trigger] self@.contains_key(k) ==> self@[k].key() == k,
    {
        lemma_filed_under_key(self.entries(), ask_key_fn());
    }

    /// The listing and the map hold the same asks: an ask is listed exactly
    /// when it is the ask that the map has under its key.
    pub proof fn lemma_listed(&self, ask: AskView)
        requires
            self.wf(),
        ensures
            self.entries().contains(ask) <==> (self@.contains_key(ask.key()) && self@[ask.key()]
                == ask),
    {
        lemma_pair_order_strict();
        lemma_ascending_unique(self.entries(), ask_key_fn(), pair_order());
        if self.entries().contains(ask) {
            let i = choose|i: int| 0 <= i < self.entries().len() && self.entries()[i] == ask;
            lemma_lookup(self.entries(), ask_key_fn(), i);
        }
        if self@.contains_key(ask.key()) && self@[ask.key()] == ask {
            let i = choose|i: int| key_at(self.entries(), ask_key_fn(), ask.key(), i);
            lemma_lookup(self.entries(), ask_key_fn(), i);
        }
    }

    /// A store without asks.
    pub fn new() -> (s: Self)
        ensures
            s.wf(),
            s.entries() == Seq::<AskView>::empty(),
            s@ == Map::<AskKey, AskView>::empty(),
    {
        let s = AskStore { entries: Vec::new() };
        assert(s.entries() =~= Seq::<AskView>::empty());
        assert(s@ =~= Map::<AskKey, AskView>::empty()) by {
            assert forall|k: AskKey| !has_key(s.entries(), ask_key_fn(), k) by {
                assert forall|i: int| !key_at(s.entries(), ask_key_fn(), k, i) by {}
            }
        }
        s
    }

    /// How many asks the store holds.
    pub fn len(&self) -> (n: usize)
        ensures
            n == self.entries().len(),
    {
        self.entries.len()
    }

    /// The place of the given key in the store's order.
    fn locate(&self, collection: &String, token_id: &String) -> (p: usize)
        ensures
            place_of(
                self.entries(),
                ask_key_fn(),
                pair_order(),
                (collection@, token_id@),
                p as int,
            ),
    {
        let mut i: usize = 0;
        while i < self.entries.len() && pair_before(
            &self.entries[i].collection,
            &self.entries[i].token_id,
            collection,
            token_id,
        )
            invariant
                i <= self.entries.len(),
                forall|j: int|
                    0 <= j < i ==> pair_order()(
                        ask_key_fn()(#[trigger] self.entries()[j]),
                        (collection@, token_id@),
                    ),
            decreases self.entries.len() - i,
        {
            i = i + 1;
        }
        i
    }

    /// The place of the ask with the given key, if there is one.
    fn find(&self, collection: &String, token_id: &String) -> (r: Option<usize>)
        requires
            self.wf(),
        ensures
            match r {
                Some(i) => key_at(self.entries(), ask_key_fn(), (collection@, token_id@), i as int),
                None => !has_key(self.entries(), ask_key_fn(), (collection@, token_id@)),
            },
    {
        let p = self.locate(collection, token_id);
        proof {
            lemma_pair_order_strict();
            lemma_place(
                self.entries(),
                ask_key_fn(),
                pair_order(),
                (collection@, token_id@),
                p as int,
            );
        }
        if p < self.entries.len() && self.entries[p].collection == *collection
            && self.entries[p].token_id == *token_id {
            Some(p)
        } else {
            None
        }
    }

    /// The ask listed for `token_id` of `collection`, if there is one.
    pub fn load(&self, collection: &String, token_id: &String) -> (r: Option<Ask>)
        requires
            self.wf(),
        ensures
            match r {
                Some(a) => self@.contains_key((collection@, token_id@)) && a@ == self@[(
                    collection@,
                    token_id@,
                )],
                None => !self@.contains_key((collection@, token_id@)),
            },
    {
        match self.find(collection, token_id) {
            Some(i) => {
                proof {
                    lemma_pair_order_strict();
                    lemma_ascending_unique(self.entries(), ask_key_fn(), pair_order());
                    lemma_lookup(self.entries(), ask_key_fn(), i as int);
                }
                Some(self.entries[i].clone())
            },
            None => None,
        }
    }

    /// Whether an ask is listed for `token_id` of `collection`.
    pub fn has(&self, collection: &String, token_id: &String) -> (r: bool)
        requires
            self.wf(),
        ensures
            r == self@.contains_key((collection@, token_id@)),
    {
        self.find(collection, token_id).is_some()
    }

    /// Lists `ask` under its key, in place of any ask that was listed there.
    pub fn save(&mut self, ask: Ask)
        requires
            old(self).wf(),
        ensures
            final(self).wf(),
            final(self)@ == old(self)@.insert(ask@.key(), ask@),
    {
        let ghost s = self.entries();
        let p = self.locate(&ask.collection, &ask.token_id);
        proof {
            lemma_pair_order_strict();
            lemma_place(s, ask_key_fn(), pair_order(), ask@.key(), p as int);
        }
        if p < self.entries.len() && self.entries[p].collection == ask.collection
            && self.entries[p].token_id == ask.token_id {
            proof {
                lemma_ascending_update(s, ask_key_fn(), pair_order(), p as int, ask@);
                assert(s.update(p as int, ask@) =~= asks_view(self.entries@.update(p as int, ask)));
            }
            self.entries[p] = ask;
        } else {
            proof {
                lemma_ascending_insert(s, ask_key_fn(), pair_order(), p as int, ask@);
                assert(s.insert(p as int, ask@) =~= asks_view(self.entries@.insert(p as int, ask)));
            }
            self.entries.insert(p, ask);
        }
    }

    /// Takes the ask for `token_id` of `collection` off the store; a key that
    /// is not listed changes nothing.
    pub fn remove(&mut self, collection: &String, token_id: &String)
        requires
            old(self).wf(),
        ensures
            final(self).wf(),
            final(self)@ == old(self)@.remove((collection@, token_id@)),
    {
        let ghost s = self.entries();
        match self.find(collection, token_id) {
            Some(i) => {
                proof {
                    lemma_pair_order_strict();
                    lemma_ascending_remove(s, ask_key_fn(), pair_order(), i as int);
                    assert(s.remove(i as int) =~= asks_view(self.entries@.remove(i as int)));
                }
                self.entries.remove(i);
            },
            None => {
                assert(self@ =~= self@.remove((collection@, token_id@)));
            },
        }
    }

    /// The asks of `collection`, in ascending order of their items, starting
    /// after the cursor where one is given: at most `page_limit(limit)` of them.
    pub fn asks_by_collection(
        &self,
        collection: &String,
        start_after: &Option<TokenId>,
        limit: Option<u32>,
    ) -> (r: Vec<Ask>)
        requires
            self.wf(),
        ensures
            asks_view(r@) == page(
                self.entries().filter(in_collection_after(collection@, opt_str_view(*start_after))),
                page_limit(limit),
            ),
            asks_ascend(asks_view(r@)),
    {
        let ghost s = self.entries();
        let ghost pred = in_collection_after(collection@, opt_str_view(*start_after));
        let cap = page_cap(limit);
        let mut out: Vec<Ask> = Vec::new();
        let mut i: usize = 0;
        proof {
            lemma_filter_none(s, pred);
        }
        while i < self.entries.len() && out.len() < cap
            invariant
                i <= self.entries.len(),
                s == self.entries(),
                asks_ascend(s),
                pred == in_collection_after(collection@, opt_str_view(*start_after)),
                out.len() <= cap,
                asks_view(out@) =~= s.take(i as int).filter(pred),
                chosen_before(asks_view(out@), s, ask_key_fn(), pair_order(), i as int),
            decreases self.entries.len() - i,
        {
            let a = &self.entries[i];
            let after = match start_after {
                Some(t) => string_lt(t, &a.token_id),
                None => true,
            };
            let ghost before = asks_view(out@);
            proof {
                lemma_filter_next(s, pred, i as int);
                lemma_choose_next(before, s, ask_key_fn(), pair_order(), i as int);
            }
            if a.collection == *collection && after {
                out.push(a.clone());
                assert(asks_view(out@) =~= before.push(s[i as int]));
            }
            i = i + 1;
        }
        proof {
            lemma_page_of_prefix(s, pred, i as int, cap as nat);
        }
        out
    }

    /// The asks of `seller`, in ascending key order, starting after the cursor
    /// where one is given: at most `page_limit(limit)` of them.
    pub fn asks_by_seller(
        &self,
        seller: &String,
        start_after: &Option<(String, TokenId)>,
        limit: Option<u32>,
    ) -> (r: Vec<Ask>)
        requires
            self.wf(),
        ensures
            asks_view(r@) == page(
                self.entries().filter(by_seller_after(seller@, cursor_view(*start_after))),
                page_limit(limit),
            ),
            asks_ascend(asks_view(r@)),
    {
        let ghost s = self.entries();
        let ghost pred = by_seller_after(seller@, cursor_view(*start_after));
        let cap = page_cap(limit);
        let mut out: Vec<Ask> = Vec::new();
        let mut i: usize = 0;
        proof {
            lemma_filter_none(s, pred);
        }
        while i < self.entries.len() && out.len() < cap
            invariant
                i <= self.entries.len(),
                s == self.entries(),
                asks_ascend(s),
                pred == by_seller_after(seller@, cursor_view(*start_after)),
                out.len() <= cap,
                asks_view(out@) =~= s.take(i as int).filter(pred),
                chosen_before(asks_view(out@), s, ask_key_fn(), pair_order(), i as int),
            decreases self.entries.len() - i,
        {
            let a = &self.entries[i];
            let after = match start_after {
                Some(k) => pair_before(&k.0, &k.1, &a.collection, &a.token_id),
                None => true,
            };
            let ghost before = asks_view(out@);
            proof {
                lemma_filter_next(s, pred, i as int);
                lemma_choose_next(before, s, ask_key_fn(), pair_order(), i as int);
            }
            if a.seller == *seller && after {
                out.push(a.clone());
                assert(asks_view(out@) =~= before.push(s[i as int]));
            }
            i = i + 1;
        }
        proof {
            lemma_page_of_prefix(s, pred, i as int, cap as nat);
        }
        out
    }

    /// How many asks `collection` has.
    pub fn count_in_collection(&self, collection: &String) -> (n: usize)
        ensures
            n == self.entries().filter(in_collection_after(collection@, None)).len(),
    {
        let ghost s = self.entries();
        let ghost pred = in_collection_after(collection@, None);
        let mut n: usize = 0;
        let mut i: usize = 0;
        proof {
            lemma_filter_none(s, pred);
        }
        while i < self.entries.len()
            invariant
                i <= self.entries.len(),
                s == self.entries(),
                pred == in_collection_after(collection@, None),
                n == s.take(i as int).filter(pred).len(),
                n <= i,
            decreases self.entries.len() - i,
        {
            proof {
                lemma_filter_next(s, pred, i as int);
            }
            if self.entries[i].collection == *collection {
                n = n + 1;
            }
            i = i + 1;
        }
        assert(s.take(i as int) =~= s);
        n
    }
}

} // verus!
