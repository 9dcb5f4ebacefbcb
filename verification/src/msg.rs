//! The shapes of what comes in and of what queries answer.

use vstd::prelude::*;
use crate::expiry::ExpiryRange;
use crate::state::{Ask, Bid, CollectionBid, SaleType, SudoParams, TokenId};
use crate::types::{opt_str_view, Coin, CoinView, Timestamp};

verus! {

/// What sets the marketplace up.
#[derive(Debug, PartialEq, Eq)]
pub struct InstantiateMsg {
    /// Fee on trades, in basis points.
    pub trading_fee_bps: u64,
    /// Window for the expiry of asks.
    pub ask_expiry: ExpiryRange,
    /// Window for the expiry of bids.
    pub bid_expiry: ExpiryRange,
    /// Who may act as a privileged operator.
    pub operators: Vec<String>,
    /// A subscriber to sales, registered from the start.
    pub sale_hook: Option<String>,
    /// Smallest price and smallest bid that is accepted.
    pub min_price: u128,
    /// Fee that must accompany a new ask.
    pub listing_fee: u128,
    /// The contract through which collections are created.
    pub create_collection_address: String,
}

/// The terms of a listing, as the seller sends them along with the item.
#[derive(Debug, PartialEq, Eq)]
pub struct AskInfo {
    pub sale_type: SaleType,
    pub collection: String,
    pub token_id: TokenId,
    pub price: Coin,
    pub funds_recipient: Option<String>,
    pub expires: Timestamp,
}

pub struct AskInfoView {
    pub sale_type: SaleType,
    pub collection: Seq<char>,
    pub token_id: Seq<char>,
    pub price: CoinView,
    pub funds_recipient: Option<Seq<char>>,
    pub expires: u64,
}

impl View for AskInfo {
    type V = AskInfoView;

    open spec fn view(&self) -> AskInfoView {
        AskInfoView {
            sale_type: self.sale_type,
            collection: self.collection@,
            token_id: self.token_id@,
            price: self.price@,
            funds_recipient: opt_str_view(self.funds_recipient),
            expires: self.expires.nanos,
        }
    }
}

/// The item a bid is placed on.
#[derive(Debug, PartialEq, Eq)]
pub struct BidInfo {
    pub collection: String,
    pub token_id: TokenId,
}

/// The notice that an item was handed to the marketplace for listing.
#[derive(Debug, PartialEq, Eq)]
pub struct Cw721ReceiveMsg {
    /// Who handed the item over: the seller.
    pub sender: String,
    /// The item that was handed over.
    pub token_id: TokenId,
    /// The terms of the listing.
    pub msg: AskInfo,
}

pub struct Cw721ReceiveMsgView {
    pub sender: Seq<char>,
    pub token_id: Seq<char>,
    pub msg: AskInfoView,
}

impl View for Cw721ReceiveMsg {
    type V = Cw721ReceiveMsgView;

    open spec fn view(&self) -> Cw721ReceiveMsgView {
        Cw721ReceiveMsgView { sender: self.sender@, token_id: self.token_id@, msg: self.msg@ }
    }
}

/// The actions of sellers and buyers.
#[derive(Debug, PartialEq, Eq)]
pub enum ExecuteMsg {
    /// List the item that was handed over.
    ReceiveNft(Cw721ReceiveMsg),
    /// Take a listing off the marketplace.
    RemoveAsk { collection: String, token_id: TokenId },
    /// Bid on a listed item; the payment is attached.
    SetBid { collection: String, token_id: TokenId },
    /// Close an auction that has ended.
    AcceptBid { collection: String, token_id: TokenId, bidder: String },
    /// Change the price of a listing.
    UpdateAskPrice { collection: String, token_id: TokenId, price: Coin },
    /// Place a standing bid on a collection; the payment is attached.
    SetCollectionBid { collection: String, expires: Timestamp },
    /// Withdraw a standing bid on a collection.
    RemoveCollectionBid { collection: String },
}

/// The privileged configuration actions.
#[derive(Debug, PartialEq, Eq)]
pub enum SudoMsg {
    /// Change the parameters that are named.
    UpdateParams {
        ask_expiry: Option<ExpiryRange>,
        bid_expiry: Option<ExpiryRange>,
        operators: Option<Vec<String>>,
        min_price: Option<u128>,
        listing_fee: Option<u128>,
    },
    AddSaleHook { hook: String },
    AddAskHook { hook: String },
    AddBidHook { hook: String },
    AddCollectionBidHook { hook: String },
    RemoveSaleHook { hook: String },
    RemoveAskHook { hook: String },
    RemoveBidHook { hook: String },
    RemoveCollectionBidHook { hook: String },
}

/// The questions the marketplace answers without changing anything.
#[derive(Debug, PartialEq, Eq)]
pub enum QueryMsg {
    /// The ask on one item.
    CurrentAsk { collection: String, token_id: TokenId },
    /// The asks of a collection, a page at a time.
    Asks { collection: String, start_after: Option<String>, limit: Option<u32> },
    /// How many asks a collection has.
    AskCount { collection: String },
    /// The asks of a seller, a page at a time.
    AsksBySeller { seller: String, start_after_ask: Option<(String, TokenId)>, limit: Option<u32> },
    /// The bid of one bidder on one item.
    Bid { collection: String, token_id: TokenId, bidder: String },
    /// The bids of a bidder.
    BidsByBidder { bidder: String },
    /// The bids on one item, a page at a time.
    Bids {
        collection: String,
        token_id: TokenId,
        start_after: Option<String>,
        limit: Option<u32>,
    },
    /// The standing bid of one bidder on a collection.
    CollectionBid { collection: String, bidder: String },
    /// The parameters in force.
    Params {},
    /// The privileged operators.
    Operators {},
}

#[derive(Debug, PartialEq, Eq)]
pub struct CurrentAskResponse {
    pub ask: Option<Ask>,
}

#[derive(Debug, PartialEq, Eq)]
pub struct AsksResponse {
    pub asks: Vec<Ask>,
}

#[derive(Debug, PartialEq, Eq)]
pub struct AskCountResponse {
    pub count: u32,
}

#[derive(Debug, PartialEq, Eq)]
pub struct BidResponse {
    pub bid: Option<Bid>,
}

#[derive(Debug, PartialEq, Eq)]
pub struct BidsResponse {
    pub bids: Vec<Bid>,
}

#[derive(Debug, PartialEq, Eq)]
pub struct CollectionBidResponse {
    pub bid: Option<CollectionBid>,
}

#[derive(Debug, PartialEq, Eq)]
pub struct ParamResponse {
    pub params: SudoParams,
}

#[derive(Debug, PartialEq, Eq)]
pub struct OperatorsResponse {
    pub operators: Vec<String>,
}

/// The host's report on an effect that it was asked to report on.
#[derive(Debug, PartialEq, Eq)]
pub struct Reply {
    /// The tag the effect was sent under.
    pub id: u64,
    /// How the effect ended: well, or with the failure's message.
    pub result: Result<(), String>,
}

} // verus!
