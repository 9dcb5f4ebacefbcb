//! What an action hands back to the host: the ordered effects to carry out
//! once the new state is committed, and a record of what happened.

use vstd::prelude::*;
use crate::state::{Ask, AskView, Bid, BidView, CollectionBid, CollectionBidView};
use crate::types::{Coin, CoinView, Timestamp};

verus! {

/// What happened to the record that a notification is about.
#[derive(Clone, Copy, Debug, PartialEq, Eq)]
pub enum HookAction {
    Create,
    Update,
    Delete,
}

/// On which outcome of an effect the host reports back.
#[derive(Clone, Copy, Debug, PartialEq, Eq)]
pub enum ReplyOn {
    Always,
    Error,
    Success,
    Never,
}

/// One effect for the host to carry out.
#[derive(Debug, PartialEq, Eq)]
pub enum Msg {
    /// Pay `amount` to `to_address`.
    Send { to_address: String, amount: Coin },
    /// Instruct the collection `contract_addr` to hand `token_id` to `recipient`.
    TransferNft { contract_addr: String, token_id: String, recipient: String },
    /// Tell the subscriber `contract_addr` of `action` on `ask`.
    AskHook { contract_addr: String, ask: Ask, action: HookAction },
    /// Tell the subscriber `contract_addr` of a completed sale.
    SaleHook {
        contract_addr: String,
        collection: String,
        token_id: String,
        price: Coin,
        seller: String,
        buyer: String,
    },
    /// Tell the subscriber `contract_addr` of `action` on `bid`.
    BidHook { contract_addr: String, bid: Bid, action: HookAction },
    /// Tell the subscriber `contract_addr` of `action` on `collection_bid`.
    CollectionBidHook { contract_addr: String, collection_bid: CollectionBid, action: HookAction },
}

pub enum MsgView {
    Send { to_address: Seq<char>, amount: CoinView },
    TransferNft { contract_addr: Seq<char>, token_id: Seq<char>, recipient: Seq<char> },
    AskHook { contract_addr: Seq<char>, ask: AskView, action: HookAction },
    SaleHook {
        contract_addr: Seq<char>,
        collection: Seq<char>,
        token_id: Seq<char>,
        price: CoinView,
        seller: Seq<char>,
        buyer: Seq<char>,
    },
    BidHook { contract_addr: Seq<char>, bid: BidView, action: HookAction },
    CollectionBidHook {
        contract_addr: Seq<char>,
        collection_bid: CollectionBidView,
        action: HookAction,
    },
}

impl View for Msg {
    type V = MsgView;

    open spec fn view(&self) -> MsgView {
        match self {
            Msg::Send { to_address, amount } => MsgView::Send {
                to_address: to_address@,
                amount: amount@,
            },
            Msg::TransferNft { contract_addr, token_id, recipient } => MsgView::TransferNft {
                contract_addr: contract_addr@,
                token_id: token_id@,
                recipient: recipient@,
            },
            Msg::AskHook { contract_addr, ask, action } => MsgView::AskHook {
                contract_addr: contract_addr@,
                ask: ask@,
                action: *action,
            },
            Msg::SaleHook { contract_addr, collection, token_id, price, seller, buyer } => {
                MsgView::SaleHook {
                    contract_addr: contract_addr@,
                    collection: collection@,
                    token_id: token_id@,
                    price: price@,
                    seller: seller@,
                    buyer: buyer@,
                }
            },
            Msg::BidHook { contract_addr, bid, action } => MsgView::BidHook {
                contract_addr: contract_addr@,
                bid: bid@,
                action: *action,
            },
            Msg::CollectionBidHook { contract_addr, collection_bid, action } => {
                MsgView::CollectionBidHook {
                    contract_addr: contract_addr@,
                    collection_bid: collection_bid@,
                    action: *action,
                }
            },
        }
    }
}

/// An effect together with how the host reports on it.
#[derive(Debug, PartialEq, Eq)]
pub struct SubMsg {
    /// Tag under which the host reports back.
    pub id: u64,
    pub msg: Msg,
    pub reply_on: ReplyOn,
}

pub struct SubMsgView {
    pub id: u64,
    pub msg: MsgView,
    pub reply_on: ReplyOn,
}

impl View for SubMsg {
    type V = SubMsgView;

    open spec fn view(&self) -> SubMsgView {
        SubMsgView { id: self.id, msg: self.msg@, reply_on: self.reply_on }
    }
}

/// An effect on which the host never reports back.
pub open spec fn fire_and_forget(msg: MsgView) -> SubMsgView {
    SubMsgView { id: 0, msg, reply_on: ReplyOn::Never }
}

/// An effect whose failure the host reports under `id`, without undoing the
/// action that sent it.
pub open spec fn reply_on_error(msg: MsgView, id: u64) -> SubMsgView {
    SubMsgView { id, msg, reply_on: ReplyOn::Error }
}

impl SubMsg {
    /// An effect on which the host never reports back.
    pub fn new(msg: Msg) -> (r: Self)
        ensures
            r@ == fire_and_forget(msg@),
    {
        SubMsg { id: 0, msg, reply_on: ReplyOn::Never }
    }

    /// An effect whose failure the host reports under `id`.
    pub fn reply_on_error(msg: Msg, id: u64) -> (r: Self)
        ensures
            r@ == reply_on_error(msg@, id),
    {
        SubMsg { id, msg, reply_on: ReplyOn::Error }
    }
}

/// View of a list of effects.
pub open spec fn submsgs_view(v: Seq<SubMsg>) -> Seq<SubMsgView> {
    v.map_values(|m: SubMsg| m@)
}

/// A key and a value that describe the outcome of an action.
#[derive(Debug, PartialEq, Eq)]
pub struct Attribute {
    pub key: String,
    pub value: String,
}

pub struct AttributeView {
    pub key: Seq<char>,
    pub value: Seq<char>,
}

impl View for Attribute {
    type V = AttributeView;

    open spec fn view(&self) -> AttributeView {
        AttributeView { key: self.key@, value: self.value@ }
    }
}

/// View of a list of attributes.
pub open spec fn attributes_view(v: Seq<Attribute>) -> Seq<AttributeView> {
    v.map_values(|a: Attribute| a@)
}

/// A record of one thing that an action did.
#[derive(Debug, PartialEq, Eq)]
pub enum Event {
    SetAsk { collection: String, token_id: String, seller: String, price: Coin, expires: Timestamp },
    RemoveAsk { collection: String, token_id: String },
    UpdateAsk { collection: String, token_id: String, price: Coin },
    SetBid { collection: String, token_id: String, bidder: String, bid_price: u128 },
    AcceptBid { collection: String, token_id: String, bidder: String },
    SetCollectionBid { collection: String, bidder: String, bid_price: u128, expires: Timestamp },
    RemoveCollectionBid { collection: String, bidder: String },
    FinalizeSale {
        collection: String,
        token_id: String,
        seller: String,
        buyer: String,
        sale_price: u128,
    },
    RoyaltyPayout { collection: String, amount: Coin, recipient: String },
}

pub enum EventView {
    SetAsk {
        collection: Seq<char>,
        token_id: Seq<char>,
        seller: Seq<char>,
        price: CoinView,
        expires: u64,
    },
    RemoveAsk { collection: Seq<char>, token_id: Seq<char> },
    UpdateAsk { collection: Seq<char>, token_id: Seq<char>, price: CoinView },
    SetBid { collection: Seq<char>, token_id: Seq<char>, bidder: Seq<char>, bid_price: u128 },
    AcceptBid { collection: Seq<char>, token_id: Seq<char>, bidder: Seq<char> },
    SetCollectionBid { collection: Seq<char>, bidder: Seq<char>, bid_price: u128, expires: u64 },
    RemoveCollectionBid { collection: Seq<char>, bidder: Seq<char> },
    FinalizeSale {
        collection: Seq<char>,
        token_id: Seq<char>,
        seller: Seq<char>,
        buyer: Seq<char>,
        sale_price: u128,
    },
    RoyaltyPayout { collection: Seq<char>, amount: CoinView, recipient: Seq<char> },
}

impl View for Event {
    type V = EventView;

    open spec fn view(&self) -> EventView {
        match self {
            Event::SetAsk { collection, token_id, seller, price, expires } => EventView::SetAsk {
                collection: collection@,
                token_id: token_id@,
                seller: seller@,
                price: price@,
                expires: expires.nanos,
            },
            Event::RemoveAsk { collection, token_id } => EventView::RemoveAsk {
                collection: collection@,
                token_id: token_id@,
            },
            Event::UpdateAsk { collection, token_id, price } => EventView::UpdateAsk {
                collection: collection@,
                token_id: token_id@,
                price: price@,
            },
            Event::SetBid { collection, token_id, bidder, bid_price } => EventView::SetBid {
                collection: collection@,
                token_id: token_id@,
                bidder: bidder@,
                bid_price: *bid_price,
            },
            Event::AcceptBid { collection, token_id, bidder } => EventView::AcceptBid {
                collection: collection@,
                token_id: token_id@,
                bidder: bidder@,
            },
            Event::SetCollectionBid { collection, bidder, bid_price, expires } => {
                EventView::SetCollectionBid {
                    collection: collection@,
                    bidder: bidder@,
                    bid_price: *bid_price,
                    expires: expires.nanos,
                }
            },
            Event::RemoveCollectionBid { collection, bidder } => EventView::RemoveCollectionBid {
                collection: collection@,
                bidder: bidder@,
            },
            Event::FinalizeSale { collection, token_id, seller, buyer, sale_price } => {
                EventView::FinalizeSale {
                    collection: collection@,
                    token_id: token_id@,
                    seller: seller@,
                    buyer: buyer@,
                    sale_price: *sale_price,
                }
            },
            Event::RoyaltyPayout { collection, amount, recipient } => EventView::RoyaltyPayout {
                collection: collection@,
                amount: amount@,
                recipient: recipient@,
            },
        }
    }
}

/// View of a list of events.
pub open spec fn events_view(v: Seq<Event>) -> Seq<EventView> {
    v.map_values(|e: Event| e@)
}

/// The outcome of an action that succeeded.
#[derive(Debug, PartialEq, Eq)]
pub struct Response {
    /// The effects, in the order in which the host carries them out.
    pub messages: Vec<SubMsg>,
    pub attributes: Vec<Attribute>,
    pub events: Vec<Event>,
}

pub struct ResponseView {
    pub messages: Seq<SubMsgView>,
    pub attributes: Seq<AttributeView>,
    pub events: Seq<EventView>,
}

impl ResponseView {
    /// The outcome without effects and without records.
    pub open spec fn empty() -> ResponseView {
        ResponseView { messages: seq![], attributes: seq![], events: seq![] }
    }

    /// This outcome with `more` effects after its own.
    pub open spec fn with_messages(self, more: Seq<SubMsgView>) -> ResponseView {
        ResponseView { messages: self.messages + more, ..self }
    }

    /// This outcome with one more event.
    pub open spec fn with_event(self, event: EventView) -> ResponseView {
        ResponseView { events: self.events.push(event), ..self }
    }

    /// This outcome with one more attribute.
    pub open spec fn with_attribute(self, key: Seq<char>, value: Seq<char>) -> ResponseView {
        ResponseView { attributes: self.attributes.push(AttributeView { key, value }), ..self }
    }
}

impl View for Response {
    type V = ResponseView;

    open spec fn view(&self) -> ResponseView {
        ResponseView {
            messages: submsgs_view(self.messages@),
            attributes: attributes_view(self.attributes@),
            events: events_view(self.events@),
        }
    }
}

impl Response {
    /// The outcome without effects and without records.
    pub fn new() -> (r: Self)
        ensures
            r@ == ResponseView::empty(),
    {
        let r = Response { messages: Vec::new(), attributes: Vec::new(), events: Vec::new() };
        assert(r@.messages =~= seq![]);
        assert(r@.attributes =~= seq![]);
        assert(r@.events =~= seq![]);
        r
    }

    /// Adds an effect on which the host never reports back.
    pub fn add_message(&mut self, msg: Msg)
        ensures
            final(self)@ == old(self)@.with_messages(seq![fire_and_forget(msg@)]),
    {
        let sub = SubMsg::new(msg);
        self.messages.push(sub);
        assert(final(self)@.messages =~= old(self)@.messages + seq![fire_and_forget(msg@)]);
    }

    /// Adds `subs` after the effects already there.
    pub fn add_submessages(&mut self, subs: Vec<SubMsg>)
        ensures
            final(self)@ == old(self)@.with_messages(submsgs_view(subs@)),
    {
        let mut subs = subs;
        let ghost added = submsgs_view(subs@);
        self.messages.append(&mut subs);
        assert(final(self)@.messages =~= old(self)@.messages + added);
    }

    /// Adds a record of what happened.
    pub fn add_event(&mut self, event: Event)
        ensures
            final(self)@ == old(self)@.with_event(event@),
    {
        self.events.push(event);
        assert(final(self)@.events =~= old(self)@.events.push(event@));
    }

    /// Adds a key and a value that describe the outcome.
    pub fn add_attribute(&mut self, key: String, value: String)
        ensures
            final(self)@ == old(self)@.with_attribute(key@, value@),
    {
        self.attributes.push(Attribute { key, value });
        assert(final(self)@.attributes =~= old(self)@.attributes.push(
            AttributeView { key: key@, value: value@ },
        ));
    }
}

} // verus!
