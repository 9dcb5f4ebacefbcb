//! The bid stores: the bids recorded on items, and the standing bids on
//! collections, each under its key and in ascending key order.

use vstd::prelude::*;
use crate::ask_store::{page_cap, page_limit};
use crate::keyed::{
    ascending, chosen_before, has_key, key_at, lemma_ascending_insert, lemma_ascending_remove,
    lemma_ascending_unique, lemma_ascending_update, lemma_choose_next, lemma_filed_under_key,
    lemma_filter_next, lemma_filter_none, lemma_lookup, lemma_page_of_prefix, lemma_place, page,
    place_of, to_map,
};
use crate::order::{
    lemma_pair_order_strict, lemma_triple_order_strict, pair_before, pair_order, str_lt,
    string_lt, triple_before, triple_order,
};
use crate::state::{
    bids_view, collection_bids_view, Bid, BidKey, BidView, CollectionBid, CollectionBidKey,
    CollectionBidView,
};
use crate::types::opt_str_view;

verus! {

/// The key function of bids.
pub open spec fn bid_key_fn() -> spec_fn(BidView) -> BidKey {
    |b: BidView| b.key()
}

/// The key function of collection bids.
pub open spec fn collection_bid_key_fn() -> spec_fn(CollectionBidView) -> CollectionBidKey {
    |b: CollectionBidView| b.key()
}

/// The bids of `s` stand in strictly ascending order of collection, then
/// item, then bidder.
pub open spec fn bids_ascend(s: Seq<BidView>) -> bool {
    ascending(s, bid_key_fn(), triple_order())
}

/// Bids on one item whose bidder comes after the cursor.
pub open spec fn on_item_after(
    collection: Seq<char>,
    token_id: Seq<char>,
    start_after: Option<Seq<char>>,
) -> spec_fn(BidView) -> bool {
    |b: BidView|
        b.collection == collection && b.token_id == token_id && match start_after {
            Some(bidder) => str_lt(bidder, b.bidder),
            None => true,
        }
}

/// Bids of one bidder.
pub open spec fn bid_of(bidder: Seq<char>) -> spec_fn(BidView) -> bool {
    |b: BidView| b.bidder == bidder
}

/// The bids recorded on items, at most one for each collection, item and
/// bidder.
#[derive(Debug)]
pub struct BidStore {
    entries: Vec<Bid>,
}

impl View for BidStore {
    type V = Map<BidKey, BidView>;

    /// The bids by key.
    open spec fn view(&self) -> Map<BidKey, BidView> {
        to_map(self.entries(), bid_key_fn())
    }
}

impl BidStore {
    /// The bids in the order in which the store keeps and lists them.
    pub closed spec fn entries(&self) -> Seq<BidView> {
        bids_view(self.entries@)
    }

    /// The store keeps its bids in strictly ascending key order, so no key
    /// occurs twice.
    pub open spec fn wf(&self) -> bool {
        bids_ascend(self.entries())
    }

    /// Every bid is recorded under its own key.
    pub proof fn lemma_keyed(&self)
        ensures
            forall|k: BidKey| #[trigger] self@.contains_key(k) ==> self@[k].key() == k,
    {
        lemma_filed_under_key(self.entries(), bid_key_fn());
    }

    /// A store without bids.
    pub fn new() -> (s: Self)
        ensures
            s.wf(),
            s.entries() == Seq::<BidView>::empty(),
            s@ == Map::<BidKey, BidView>::empty(),
    {
        let s = BidStore { entries: Vec::new() };
        assert(s.entries() =~= Seq::<BidView>::empty());
        assert(s@ =~= Map::<BidKey, BidView>::empty()) by {
            assert forall|k: BidKey| !has_key(s.entries(), bid_key_fn(), k) by {
                assert forall|i: int| !key_at(s.entries(), bid_key_fn(), k, i) by {}
            }
        }
        s
    }

    /// How many bids the store holds.
    pub fn len(&self) -> (n: usize)
        ensures
            n == self.entries().len(),
    {
        self.entries.len()
    }

    /// The place of the given key in the store's order.
    fn locate(&self, collection: &String, token_id: &String, bidder: &String) -> (p: usize)
        ensures
            place_of(
                self.entries(),
                bid_key_fn(),
                triple_order(),
                (collection@, token_id@, bidder@),
                p as int,
            ),
    {
        let mut i: usize = 0;
        while i < self.entries.len() && triple_before(
            &self.entries[i].collection,
            &self.entries[i].token_id,
            &self.entries[i].bidder,
            collection,
            token_id,
            bidder,
        )
            invariant
                i <= self.entries.len(),
                forall|j: int|
                    0 <= j < i ==> triple_order()(
                        bid_key_fn()(#[trigger] self.entries()[j]),
                        (collection@, token_id@, bidder@),
                    ),
            decreases self.entries.len() - i,
        {
            i = i + 1;
        }
        i
    }

    /// Whether the bid at place `p` has the given key.
    fn is_at(&self, p: usize, collection: &String, token_id: &String, bidder: &String) -> (r: bool)
        ensures
            r == key_at(
                self.entries(),
                bid_key_fn(),
                (collection@, token_id@, bidder@),
                p as int,
            ),
    {
        p < self.entries.len() && self.entries[p].collection == *collection
            && self.entries[p].token_id == *token_id && self.entries[p].bidder == *bidder
    }

    /// The bid that `bidder` has on record for `token_id` of `collection`, if
    /// there is one.
    pub fn load(&self, collection: &String, token_id: &String, bidder: &String) -> (r: Option<Bid>)
        requires
            self.wf(),
        ensures
            match r {
                Some(b) => self@.contains_key((collection@, token_id@, bidder@)) && b@ == self@[(
                    collection@,
                    token_id@,
                    bidder@,
                )],
                None => !self@.contains_key((collection@, token_id@, bidder@)),
            },
    {
        let p = self.locate(collection, token_id, bidder);
        proof {
            lemma_triple_order_strict();
            lemma_place(
                self.entries(),
                bid_key_fn(),
                triple_order(),
                (collection@, token_id@, bidder@),
                p as int,
            );
            lemma_ascending_unique(self.entries(), bid_key_fn(), triple_order());
        }
        if self.is_at(p, collection, token_id, bidder) {
            proof {
                lemma_lookup(self.entries(), bid_key_fn(), p as int);
            }
            Some(self.entries[p].clone())
        } else {
            None
        }
    }

    /// Records `bid` under its key, in place of any bid that was recorded
    /// there.
    pub fn save(&mut self, bid: Bid)
        requires
            old(self).wf(),
        ensures
            final(self).wf(),
            final(self)@ == old(self)@.insert(bid@.key(), bid@),
    {
        let ghost s = self.entries();
        let p = self.locate(&bid.collection, &bid.token_id, &bid.bidder);
        proof {
            lemma_triple_order_strict();
            lemma_place(s, bid_key_fn(), triple_order(), bid@.key(), p as int);
        }
        if self.is_at(p, &bid.collection, &bid.token_id, &bid.bidder) {
            proof {
                lemma_ascending_update(s, bid_key_fn(), triple_order(), p as int, bid@);
                assert(s.update(p as int, bid@) =~= bids_view(self.entries@.update(p as int, bid)));
            }
            self.entries[p] = bid;
        } else {
            proof {
                lemma_ascending_insert(s, bid_key_fn(), triple_order(), p as int, bid@);
                assert(s.insert(p as int, bid@) =~= bids_view(self.entries@.insert(p as int, bid)));
            }
            self.entries.insert(p, bid);
        }
    }

    /// Takes the bid with the given key off the record; a key that is not
    /// recorded changes nothing.
    pub fn remove(&mut self, collection: &String, token_id: &String, bidder: &String)
        requires
            old(self).wf(),
        ensures
            final(self).wf(),
            final(self)@ == old(self)@.remove((collection@, token_id@, bidder@)),
    {
        let ghost s = self.entries();
        let p = self.locate(collection, token_id, bidder);
        proof {
            lemma_triple_order_strict();
            lemma_place(s, bid_key_fn(), triple_order(), (collection@, token_id@, bidder@), p as int);
        }
        if self.is_at(p, collection, token_id, bidder) {
            proof {
                lemma_ascending_remove(s, bid_key_fn(), triple_order(), p as int);
                assert(s.remove(p as int) =~= bids_view(self.entries@.remove(p as int)));
            }
            self.entries.remove(p);
        } else {
            assert(self@ =~= self@.remove((collection@, token_id@, bidder@)));
        }
    }

    /// The bids recorded on `token_id` of `collection`, in ascending order of
    /// their bidders, starting after the cursor where one is given: at most
    /// `page_limit(limit)` of them.
    pub fn bids_on_item(
        &self,
        collection: &String,
        token_id: &String,
        start_after: &Option<String>,
        limit: Option<u32>,
    ) -> (r: Vec<Bid>)
        requires
            self.wf(),
        ensures
            bids_view(r@) == page(
                self.entries().filter(
                    on_item_after(collection@, token_id@, opt_str_view(*start_after)),
                ),
                page_limit(limit),
            ),
            bids_ascend(bids_view(r@)),
    {
        let ghost s = self.entries();
        let ghost pred = on_item_after(collection@, token_id@, opt_str_view(*start_after));
        let cap = page_cap(limit);
        let mut out: Vec<Bid> = Vec::new();
        let mut i: usize = 0;
        proof {
            lemma_filter_none(s, pred);
        }
        while i < self.entries.len() && out.len() < cap
            invariant
                i <= self.entries.len(),
                s == self.entries(),
                bids_ascend(s),
                pred == on_item_after(collection@, token_id@, opt_str_view(*start_after)),
                out.len() <= cap,
                bids_view(out@) =~= s.take(i as int).filter(pred),
                chosen_before(bids_view(out@), s, bid_key_fn(), triple_order(), i as int),
            decreases self.entries.len() - i,
        {
            let b = &self.entries[i];
            let after = match start_after {
                Some(bidder) => string_lt(bidder, &b.bidder),
                None => true,
            };
            let ghost before = bids_view(out@);
            proof {
                lemma_filter_next(s, pred, i as int);
                lemma_choose_next(before, s, bid_key_fn(), triple_order(), i as int);
            }
            if b.collection == *collection && b.token_id == *token_id && after {
                out.push(b.clone());
                assert(bids_view(out@) =~= before.push(s[i as int]));
            }
            i = i + 1;
        }
        proof {
            lemma_page_of_prefix(s, pred, i as int, cap as nat);
        }
        out
    }

    /// All the bids recorded on `token_id` of `collection`, in ascending
    /// order of their bidders.
    pub fn all_bids_on_item(&self, collection: &String, token_id: &String) -> (r: Vec<Bid>)
        ensures
            bids_view(r@) == self.entries().filter(on_item_after(collection@, token_id@, None)),
    {
        let ghost s = self.entries();
        let ghost pred = on_item_after(collection@, token_id@, None);
        let mut out: Vec<Bid> = Vec::new();
        let mut i: usize = 0;
        proof {
            lemma_filter_none(s, pred);
        }
        while i < self.entries.len()
            invariant
                i <= self.entries.len(),
                s == self.entries(),
                pred == on_item_after(collection@, token_id@, None),
                bids_view(out@) =~= s.take(i as int).filter(pred),
            decreases self.entries.len() - i,
        {
            let b = &self.entries[i];
            let ghost before = bids_view(out@);
            proof {
                lemma_filter_next(s, pred, i as int);
            }
            if b.collection == *collection && b.token_id == *token_id {
                out.push(b.clone());
                assert(bids_view(out@) =~= before.push(s[i as int]));
            }
            i = i + 1;
        }
        assert(s.take(i as int) =~= s);
        out
    }

    /// All the bids recorded for `bidder`, in ascending key order.
    pub fn bids_by_bidder(&self, bidder: &String) -> (r: Vec<Bid>)
        ensures
            bids_view(r@) == self.entries().filter(bid_of(bidder@)),
    {
        let ghost s = self.entries();
        let ghost pred = bid_of(bidder@);
        let mut out: Vec<Bid> = Vec::new();
        let mut i: usize = 0;
        proof {
            lemma_filter_none(s, pred);
        }
        while i < self.entries.len()
            invariant
                i <= self.entries.len(),
                s == self.entries(),
                pred == bid_of(bidder@),
                bids_view(out@) =~= s.take(i as int).filter(pred),
            decreases self.entries.len() - i,
        {
            let b = &self.entries[i];
            let ghost before = bids_view(out@);
            proof {
                lemma_filter_next(s, pred, i as int);
            }
            if b.bidder == *bidder {
                out.push(b.clone());
                assert(bids_view(out@) =~= before.push(s[i as int]));
            }
            i = i + 1;
        }
        assert(s.take(i as int) =~= s);
        out
    }
}

/// The collection bids of `s` stand in strictly ascending order of
/// collection, then bidder.
pub open spec fn collection_bids_ascend(s: Seq<CollectionBidView>) -> bool {
    ascending(s, collection_bid_key_fn(), pair_order())
}

/// The standing bids on collections, at most one for each collection and
/// bidder.
#[derive(Debug)]
pub struct CollectionBidStore {
    entries: Vec<CollectionBid>,
}

impl View for CollectionBidStore {
    type V = Map<CollectionBidKey, CollectionBidView>;

    /// The collection bids by key.
    open spec fn view(&self) -> Map<CollectionBidKey, CollectionBidView> {
        to_map(self.entries(), collection_bid_key_fn())
    }
}

impl CollectionBidStore {
    /// The collection bids in the order in which the store keeps them.
    pub closed spec fn entries(&self) -> Seq<CollectionBidView> {
        collection_bids_view(self.entries@)
    }

    /// The store keeps its bids in strictly ascending key order, so no key
    /// occurs twice.
    pub open spec fn wf(&self) -> bool {
        collection_bids_ascend(self.entries())
    }

    /// Every collection bid is recorded under its own key.
    pub proof fn lemma_keyed(&self)
        ensures
            forall|k: CollectionBidKey| #[trigger]
                self@.contains_key(k) ==> self@[k].key() == k,
    {
        lemma_filed_under_key(self.entries(), collection_bid_key_fn());
    }

    /// A store without collection bids.
    pub fn new() -> (s: Self)
        ensures
            s.wf(),
            s.entries() == Seq::<CollectionBidView>::empty(),
            s@ == Map::<CollectionBidKey, CollectionBidView>::empty(),
    {
        let s = CollectionBidStore { entries: Vec::new() };
        assert(s.entries() =~= Seq::<CollectionBidView>::empty());
        assert(s@ =~= Map::<CollectionBidKey, CollectionBidView>::empty()) by {
            assert forall|k: CollectionBidKey| !has_key(s.entries(), collection_bid_key_fn(), k) by {
                assert forall|i: int| !key_at(s.entries(), collection_bid_key_fn(), k, i) by {}
            }
        }
        s
    }

    /// How many collection bids the store holds.
    pub fn len(&self) -> (n: usize)
        ensures
            n == self.entries().len(),
    {
        self.entries.len()
    }

    /// The place of the given key in the store's order.
    fn locate(&self, collection: &String, bidder: &String) -> (p: usize)
        ensures
            place_of(
                self.entries(),
                collection_bid_key_fn(),
                pair_order(),
                (collection@, bidder@),
                p as int,
            ),
    {
        let mut i: usize = 0;
        while i < self.entries.len() && pair_before(
            &self.entries[i].collection,
            &self.entries[i].bidder,
            collection,
            bidder,
        )
            invariant
                i <= self.entries.len(),
                forall|j: int|
                    0 <= j < i ==> pair_order()(
                        collection_bid_key_fn()(#[trigger] self.entries()[j]),
                        (collection@, bidder@),
                    ),
            decreases self.entries.len() - i,
        {
            i = i + 1;
        }
        i
    }

    /// Whether the collection bid at place `p` has the given key.
    fn is_at(&self, p: usize, collection: &String, bidder: &String) -> (r: bool)
        ensures
            r == key_at(self.entries(), collection_bid_key_fn(), (collection@, bidder@), p as int),
    {
        p < self.entries.len() && self.entries[p].collection == *collection
            && self.entries[p].bidder == *bidder
    }

    /// The standing bid of `bidder` on `collection`, if there is one.
    pub fn load(&self, collection: &String, bidder: &String) -> (r: Option<CollectionBid>)
        requires
            self.wf(),
        ensures
            match r {
                Some(b) => self@.contains_key((collection@, bidder@)) && b@ == self@[(
                    collection@,
                    bidder@,
                )],
                None => !self@.contains_key((collection@, bidder@)),
            },
    {
        let p = self.locate(collection, bidder);
        proof {
            lemma_pair_order_strict();
            lemma_place(
                self.entries(),
                collection_bid_key_fn(),
                pair_order(),
                (collection@, bidder@),
                p as int,
            );
            lemma_ascending_unique(self.entries(), collection_bid_key_fn(), pair_order());
        }
        if self.is_at(p, collection, bidder) {
            proof {
                lemma_lookup(self.entries(), collection_bid_key_fn(), p as int);
            }
            Some(self.entries[p].clone())
        } else {
            None
        }
    }

    /// Records `bid` under its key, in place of any bid that was recorded
    /// there.
    pub fn save(&mut self, bid: CollectionBid)
        requires
            old(self).wf(),
        ensures
            final(self).wf(),
            final(self)@ == old(self)@.insert(bid@.key(), bid@),
    {
        let ghost s = self.entries();
        let p = self.locate(&bid.collection, &bid.bidder);
        proof {
            lemma_pair_order_strict();
            lemma_place(s, collection_bid_key_fn(), pair_order(), bid@.key(), p as int);
        }
        if self.is_at(p, &bid.collection, &bid.bidder) {
            proof {
                lemma_ascending_update(s, collection_bid_key_fn(), pair_order(), p as int, bid@);
                assert(s.update(p as int, bid@) =~= collection_bids_view(
                    self.entries@.update(p as int, bid),
                ));
            }
            self.entries[p] = bid;
        } else {
            proof {
                lemma_ascending_insert(s, collection_bid_key_fn(), pair_order(), p as int, bid@);
                assert(s.insert(p as int, bid@) =~= collection_bids_view(
                    self.entries@.insert(p as int, bid),
                ));
            }
            self.entries.insert(p, bid);
        }
    }

    /// Takes the collection bid with the given key off the record; a key that
    /// is not recorded changes nothing.
    pub fn remove(&mut self, collection: &String, bidder: &String)
        requires
            old(self).wf(),
        ensures
            final(self).wf(),
            final(self)@ == old(self)@.remove((collection@, bidder@)),
    {
        let ghost s = self.entries();
        let p = self.locate(collection, bidder);
        proof {
            lemma_pair_order_strict();
            lemma_place(s, collection_bid_key_fn(), pair_order(), (collection@, bidder@), p as int);
        }
        if self.is_at(p, collection, bidder) {
            proof {
                lemma_ascending_remove(s, collection_bid_key_fn(), pair_order(), p as int);
                assert(s.remove(p as int) =~= collection_bids_view(
                    self.entries@.remove(p as int),
                ));
            }
            self.entries.remove(p);
        } else {
            assert(self@ =~= self@.remove((collection@, bidder@)));
        }
    }
}

} // verus!
