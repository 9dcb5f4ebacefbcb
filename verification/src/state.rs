//! The records the marketplace keeps: asks, bids, collection bids and the
//! parameters that govern them.

use vstd::prelude::*;
use crate::expiry::ExpiryRange;
use crate::types::{clone_opt_string, clone_strings, opt_str_view, strs_view, BlockInfo, Timestamp};

verus! {

/// An item's identifier within its collection.
pub type TokenId = String;

/// How an ask is sold.
#[derive(Clone, Copy, Debug, PartialEq, Eq)]
pub enum SaleType {
    /// The first bid of exactly the asked price buys the item.
    FixedPrice,
    /// Bids must outdo one another until the ask expires.
    Auction,
}

/// A seller's listing of one item.
#[derive(Debug, PartialEq, Eq)]
pub struct Ask {
    pub sale_type: SaleType,
    pub collection: String,
    pub token_id: TokenId,
    pub seller: String,
    pub price: u128,
    pub funds_recipient: Option<String>,
    pub expires_at: Timestamp,
    pub is_active: bool,
    /// The leading bidder; the marketplace itself while nobody has bid.
    pub max_bidder: Option<String>,
    /// The leading amount; the minimum price while nobody has bid.
    pub max_bid: Option<u128>,
}

pub struct AskView {
    pub sale_type: SaleType,
    pub collection: Seq<char>,
    pub token_id: Seq<char>,
    pub seller: Seq<char>,
    pub price: u128,
    pub funds_recipient: Option<Seq<char>>,
    pub expires_at: u64,
    pub is_active: bool,
    pub max_bidder: Option<Seq<char>>,
    pub max_bid: Option<u128>,
}

/// The key of an ask: its collection and the item's identifier.
pub type AskKey = (Seq<char>, Seq<char>);

impl AskView {
    pub open spec fn key(self) -> AskKey {
        (self.collection, self.token_id)
    }

    /// An ask has expired once the block time has reached its expiry.
    pub open spec fn is_expired(self, now: u64) -> bool {
        self.expires_at <= now
    }

    /// Who is paid for the sale: the named recipient, else the seller.
    pub open spec fn payee(self) -> Seq<char> {
        match self.funds_recipient {
            Some(r) => r,
            None => self.seller,
        }
    }
}

impl View for Ask {
    type V = AskView;

    open spec fn view(&self) -> AskView {
        AskView {
            sale_type: self.sale_type,
            collection: self.collection@,
            token_id: self.token_id@,
            seller: self.seller@,
            price: self.price,
            funds_recipient: opt_str_view(self.funds_recipient),
            expires_at: self.expires_at.nanos,
            is_active: self.is_active,
            max_bidder: opt_str_view(self.max_bidder),
            max_bid: self.max_bid,
        }
    }
}

impl Clone for Ask {
    fn clone(&self) -> (r: Self)
        ensures
            r@ == self@,
    {
        Ask {
            sale_type: self.sale_type,
            collection: self.collection.clone(),
            token_id: self.token_id.clone(),
            seller: self.seller.clone(),
            price: self.price,
            funds_recipient: clone_opt_string(&self.funds_recipient),
            expires_at: self.expires_at,
            is_active: self.is_active,
            max_bidder: clone_opt_string(&self.max_bidder),
            max_bid: self.max_bid,
        }
    }
}

/// View of a list of asks.
pub open spec fn asks_view(v: Seq<Ask>) -> Seq<AskView> {
    v.map_values(|a: Ask| a@)
}

impl Ask {
    /// Whether the ask has expired by the time of `block`.
    pub fn is_expired(&self, block: &BlockInfo) -> (r: bool)
        ensures
            r == self@.is_expired(block.time.nanos),
    {
        self.expires_at.nanos <= block.time.nanos
    }
}

/// An escrowed offer on one item, recorded when it took the lead.
#[derive(Debug, PartialEq, Eq)]
pub struct Bid {
    pub collection: String,
    pub token_id: TokenId,
    pub bidder: String,
    pub price: u128,
}

pub struct BidView {
    pub collection: Seq<char>,
    pub token_id: Seq<char>,
    pub bidder: Seq<char>,
    pub price: u128,
}

/// The key of a bid: collection, item and bidder.
pub type BidKey = (Seq<char>, Seq<char>, Seq<char>);

impl BidView {
    pub open spec fn key(self) -> BidKey {
        (self.collection, self.token_id, self.bidder)
    }
}

impl View for Bid {
    type V = BidView;

    open spec fn view(&self) -> BidView {
        BidView {
            collection: self.collection@,
            token_id: self.token_id@,
            bidder: self.bidder@,
            price: self.price,
        }
    }
}

impl Clone for Bid {
    fn clone(&self) -> (r: Self)
        ensures
            r@ == self@,
    {
        Bid {
            collection: self.collection.clone(),
            token_id: self.token_id.clone(),
            bidder: self.bidder.clone(),
            price: self.price,
        }
    }
}

/// View of a list of bids.
pub open spec fn bids_view(v: Seq<Bid>) -> Seq<BidView> {
    v.map_values(|b: Bid| b@)
}

impl Bid {
    pub fn new(collection: String, token_id: TokenId, bidder: String, price: u128) -> (r: Self)
        ensures
            r@ == (BidView {
                collection: collection@,
                token_id: token_id@,
                bidder: bidder@,
                price,
            }),
    {
        Bid { collection, token_id, bidder, price }
    }
}

/// A standing escrowed offer on any item of a collection.
#[derive(Debug, PartialEq, Eq)]
pub struct CollectionBid {
    pub collection: String,
    pub bidder: String,
    pub price: u128,
    pub expires_at: Timestamp,
}

pub struct CollectionBidView {
    pub collection: Seq<char>,
    pub bidder: Seq<char>,
    pub price: u128,
    pub expires_at: u64,
}

/// The key of a collection bid: collection and bidder.
pub type CollectionBidKey = (Seq<char>, Seq<char>);

impl CollectionBidView {
    pub open spec fn key(self) -> CollectionBidKey {
        (self.collection, self.bidder)
    }

    pub open spec fn is_expired(self, now: u64) -> bool {
        self.expires_at <= now
    }
}

impl View for CollectionBid {
    type V = CollectionBidView;

    open spec fn view(&self) -> CollectionBidView {
        CollectionBidView {
            collection: self.collection@,
            bidder: self.bidder@,
            price: self.price,
            expires_at: self.expires_at.nanos,
        }
    }
}

impl Clone for CollectionBid {
    fn clone(&self) -> (r: Self)
        ensures
            r@ == self@,
    {
        CollectionBid {
            collection: self.collection.clone(),
            bidder: self.bidder.clone(),
            price: self.price,
            expires_at: self.expires_at,
        }
    }
}

/// View of a list of collection bids.
pub open spec fn collection_bids_view(v: Seq<CollectionBid>) -> Seq<CollectionBidView> {
    v.map_values(|b: CollectionBid| b@)
}

impl CollectionBid {
    /// Whether the bid has expired by the time of `block`.
    pub fn is_expired(&self, block: &BlockInfo) -> (r: bool)
        ensures
            r == self@.is_expired(block.time.nanos),
    {
        self.expires_at.nanos <= block.time.nanos
    }
}

/// The marketplace's configuration.
#[derive(Debug, PartialEq, Eq)]
pub struct SudoParams {
    /// Window for the expiry of asks.
    pub ask_expiry: ExpiryRange,
    /// Window for the expiry of bids.
    pub bid_expiry: ExpiryRange,
    /// Who may act as a privileged operator.
    pub operators: Vec<String>,
    /// Smallest price and smallest bid that is accepted.
    pub min_price: u128,
    /// Fee that must accompany a new ask.
    pub listing_fee: u128,
}

pub struct SudoParamsView {
    pub ask_expiry: ExpiryRange,
    pub bid_expiry: ExpiryRange,
    pub operators: Seq<Seq<char>>,
    pub min_price: u128,
    pub listing_fee: u128,
}

impl View for SudoParams {
    type V = SudoParamsView;

    open spec fn view(&self) -> SudoParamsView {
        SudoParamsView {
            ask_expiry: self.ask_expiry,
            bid_expiry: self.bid_expiry,
            operators: strs_view(self.operators@),
            min_price: self.min_price,
            listing_fee: self.listing_fee,
        }
    }
}

impl Clone for SudoParams {
    fn clone(&self) -> (r: Self)
        ensures
            r@ == self@,
    {
        SudoParams {
            ask_expiry: self.ask_expiry,
            bid_expiry: self.bid_expiry,
            operators: clone_strings(&self.operators),
            min_price: self.min_price,
            listing_fee: self.listing_fee,
        }
    }
}

} // verus!
