//! The whole state of the marketplace.

use vstd::prelude::*;
use crate::ask_store::AskStore;
use crate::bid_store::{BidStore, CollectionBidStore};
use crate::hooks::Hooks;
use crate::state::{
    AskKey, AskView, BidKey, BidView, CollectionBidKey, CollectionBidView, SudoParams,
    SudoParamsView,
};

verus! {

/// Everything the marketplace keeps between actions. An action changes it
/// only when it succeeds.
#[derive(Debug)]
pub struct State {
    pub params: SudoParams,
    pub asks: AskStore,
    pub bids: BidStore,
    pub collection_bids: CollectionBidStore,
    pub ask_hooks: Hooks,
    pub sale_hooks: Hooks,
    pub bid_hooks: Hooks,
    pub collection_bid_hooks: Hooks,
}

pub struct StateView {
    pub params: SudoParamsView,
    pub asks: Map<AskKey, AskView>,
    pub bids: Map<BidKey, BidView>,
    pub collection_bids: Map<CollectionBidKey, CollectionBidView>,
    pub ask_hooks: Seq<Seq<char>>,
    pub sale_hooks: Seq<Seq<char>>,
    pub bid_hooks: Seq<Seq<char>>,
    pub collection_bid_hooks: Seq<Seq<char>>,
}

impl StateView {
    /// Every record is filed under its own key.
    pub open spec fn keyed(self) -> bool {
        &&& forall|k: AskKey| #[trigger] self.asks.contains_key(k) ==> self.asks[k].key() == k
        &&& forall|k: BidKey| #[trigger] self.bids.contains_key(k) ==> self.bids[k].key() == k
        &&& forall|k: CollectionBidKey| #[trigger]
            self.collection_bids.contains_key(k) ==> self.collection_bids[k].key() == k
    }
}

impl View for State {
    type V = StateView;

    open spec fn view(&self) -> StateView {
        StateView {
            params: self.params@,
            asks: self.asks@,
            bids: self.bids@,
            collection_bids: self.collection_bids@,
            ask_hooks: self.ask_hooks@,
            sale_hooks: self.sale_hooks@,
            bid_hooks: self.bid_hooks@,
            collection_bid_hooks: self.collection_bid_hooks@,
        }
    }
}

impl State {
    /// The stores hold each key once and the registries each subscriber once.
    pub open spec fn wf(&self) -> bool {
        &&& self.asks.wf()
        &&& self.bids.wf()
        &&& self.collection_bids.wf()
        &&& self.ask_hooks.wf()
        &&& self.sale_hooks.wf()
        &&& self.bid_hooks.wf()
        &&& self.collection_bid_hooks.wf()
    }

    /// A marketplace with the given parameters, without records and without
    /// subscribers.
    pub fn new(params: SudoParams) -> (s: Self)
        ensures
            s.wf(),
            s@ == (StateView {
                params: params@,
                asks: Map::empty(),
                bids: Map::empty(),
                collection_bids: Map::empty(),
                ask_hooks: Seq::empty(),
                sale_hooks: Seq::empty(),
                bid_hooks: Seq::empty(),
                collection_bid_hooks: Seq::empty(),
            }),
    {
        State {
            params,
            asks: AskStore::new(),
            bids: BidStore::new(),
            collection_bids: CollectionBidStore::new(),
            ask_hooks: Hooks::new(),
            sale_hooks: Hooks::new(),
            bid_hooks: Hooks::new(),
            collection_bid_hooks: Hooks::new(),
        }
    }
}

} // verus!
