//! Hook subscribers, and the notifications that are queued for them.
//!
//! A notification is sent to every subscriber of its event family, in the
//! order in which they registered. The host reports a failed notification
//! back under the family's tag; it never undoes the action that sent it.

use vstd::prelude::*;
use crate::error::HookError;
use crate::response::{reply_on_error, submsgs_view, HookAction, Msg, MsgView, SubMsg, SubMsgView};
use crate::state::{Ask, AskView, Bid, BidView, CollectionBid, CollectionBidView};
use crate::types::{clone_strings, coin_native, native_coin, strs_view};

verus! {

/// The event family of a notification, which tags the host's report of its
/// failure.
#[derive(Clone, Copy, Debug, PartialEq, Eq)]
pub enum HookReply {
    Ask,
    Sale,
    Bid,
    CollectionBid,
}

impl HookReply {
    /// The tag of the family: 1 for asks, 2 for sales, 3 for bids and 4 for
    /// collection bids.
    pub open spec fn spec_id(self) -> u64 {
        match self {
            HookReply::Ask => 1,
            HookReply::Sale => 2,
            HookReply::Bid => 3,
            HookReply::CollectionBid => 4,
        }
    }

    /// The tag of the family.
    pub fn id(self) -> (r: u64)
        ensures
            r == self.spec_id(),
    {
        match self {
            HookReply::Ask => 1,
            HookReply::Sale => 2,
            HookReply::Bid => 3,
            HookReply::CollectionBid => 4,
        }
    }

    /// The family that `id` tags, if it tags one.
    pub fn from_id(id: u64) -> (r: Option<HookReply>)
        ensures
            1 <= id <= 4 ==> r.is_some() && r.unwrap().spec_id() == id,
            !(1 <= id <= 4) ==> r.is_none(),
    {
        if id == 1 {
            Some(HookReply::Ask)
        } else if id == 2 {
            Some(HookReply::Sale)
        } else if id == 3 {
            Some(HookReply::Bid)
        } else if id == 4 {
            Some(HookReply::CollectionBid)
        } else {
            None
        }
    }
}

/// The subscribers of one event family, in the order in which they
/// registered.
#[derive(Debug)]
pub struct Hooks {
    hooks: Vec<String>,
}

impl View for Hooks {
    type V = Seq<Seq<char>>;

    closed spec fn view(&self) -> Seq<Seq<char>> {
        strs_view(self.hooks@)
    }
}

impl Hooks {
    /// No subscriber is registered twice.
    pub open spec fn wf(&self) -> bool {
        self@.no_duplicates()
    }

    /// A registry without subscribers.
    pub fn new() -> (r: Self)
        ensures
            r.wf(),
            r@ == Seq::<Seq<char>>::empty(),
    {
        let r = Hooks { hooks: Vec::new() };
        assert(r@ =~= Seq::<Seq<char>>::empty());
        r
    }

    /// The place at which `addr` is registered, if it is.
    fn position(&self, addr: &String) -> (r: Option<usize>)
        ensures
            match r {
                Some(p) => p < self@.len() && self@[p as int] == addr@,
                None => !self@.contains(addr@),
            },
    {
        let mut i: usize = 0;
        while i < self.hooks.len()
            invariant
                i <= self.hooks.len(),
                forall|j: int| 0 <= j < i ==> self@[j] != addr@,
            decreases self.hooks.len() - i,
        {
            if self.hooks[i] == *addr {
                return Some(i);
            }
            i = i + 1;
        }
        None
    }

    /// Registers `addr` after the subscribers already there; an address that
    /// is registered already is refused.
    pub fn add_hook(&mut self, addr: String) -> (r: Result<(), HookError>)
        requires
            old(self).wf(),
        ensures
            final(self).wf(),
            old(self)@.contains(addr@) ==> r == Err::<(), HookError>(
                HookError::HookAlreadyRegistered,
            ) && final(self)@ == old(self)@,
            !old(self)@.contains(addr@) ==> r.is_ok() && final(self)@ == old(self)@.push(addr@),
    {
        match self.position(&addr) {
            Some(_) => Err(HookError::HookAlreadyRegistered),
            None => {
                self.hooks.push(addr);
                assert(self@ =~= old(self)@.push(addr@));
                Ok(())
            },
        }
    }

    /// Takes `addr` off the registry; an address that is not registered is
    /// refused.
    pub fn remove_hook(&mut self, addr: &String) -> (r: Result<(), HookError>)
        requires
            old(self).wf(),
        ensures
            final(self).wf(),
            !old(self)@.contains(addr@) ==> r == Err::<(), HookError>(HookError::HookNotRegistered)
                && final(self)@ == old(self)@,
            old(self)@.contains(addr@) ==> r.is_ok() && final(self)@ == old(self)@.remove(
                old(self)@.index_of(addr@),
            ),
    {
        match self.position(addr) {
            Some(p) => {
                proof {
                    let q = self@.index_of(addr@);
                    assert(self@[p as int] == addr@);
                    assert(self@.contains(addr@));
                    assert(q == p);
                }
                self.hooks.remove(p);
                assert(self@ =~= old(self)@.remove(p as int));
                Ok(())
            },
            None => Err(HookError::HookNotRegistered),
        }
    }

    /// The registered subscribers, in order.
    pub fn list(&self) -> (r: Vec<String>)
        ensures
            strs_view(r@) == self@,
    {
        clone_strings(&self.hooks)
    }

    /// How many subscribers are registered.
    pub fn len(&self) -> (n: usize)
        ensures
            n == self@.len(),
    {
        self.hooks.len()
    }
}

/// The notifications of `action` on `ask`: one for each subscriber, in order.
pub open spec fn ask_hook_msgs(hooks: Seq<Seq<char>>, ask: AskView, action: HookAction) -> Seq<
    SubMsgView,
> {
    Seq::new(
        hooks.len(),
        |i: int|
            reply_on_error(
                MsgView::AskHook { contract_addr: hooks[i], ask, action },
                HookReply::Ask.spec_id(),
            ),
    )
}

/// The notifications of the sale of `ask` to `buyer`: one for each
/// subscriber, in order. The price named is the price asked.
pub open spec fn sale_hook_msgs(hooks: Seq<Seq<char>>, ask: AskView, buyer: Seq<char>) -> Seq<
    SubMsgView,
> {
    Seq::new(
        hooks.len(),
        |i: int|
            reply_on_error(
                MsgView::SaleHook {
                    contract_addr: hooks[i],
                    collection: ask.collection,
                    token_id: ask.token_id,
                    price: native_coin(ask.price),
                    seller: ask.seller,
                    buyer,
                },
                HookReply::Sale.spec_id(),
            ),
    )
}

/// The notifications of `action` on `bid`: one for each subscriber, in order.
pub open spec fn bid_hook_msgs(hooks: Seq<Seq<char>>, bid: BidView, action: HookAction) -> Seq<
    SubMsgView,
> {
    Seq::new(
        hooks.len(),
        |i: int|
            reply_on_error(
                MsgView::BidHook { contract_addr: hooks[i], bid, action },
                HookReply::Bid.spec_id(),
            ),
    )
}

/// The notifications of `action` on `collection_bid`: one for each
/// subscriber, in order.
pub open spec fn collection_bid_hook_msgs(
    hooks: Seq<Seq<char>>,
    collection_bid: CollectionBidView,
    action: HookAction,
) -> Seq<SubMsgView> {
    Seq::new(
        hooks.len(),
        |i: int|
            reply_on_error(
                MsgView::CollectionBidHook { contract_addr: hooks[i], collection_bid, action },
                HookReply::CollectionBid.spec_id(),
            ),
    )
}

/// Queues the notification of `action` on `ask` for every ask subscriber.
pub fn prepare_ask_hook(hooks: &Hooks, ask: &Ask, action: HookAction) -> (r: Vec<SubMsg>)
    ensures
        submsgs_view(r@) == ask_hook_msgs(hooks@, ask@, action),
{
    let mut out: Vec<SubMsg> = Vec::new();
    let mut i: usize = 0;
    while i < hooks.hooks.len()
        invariant
            i <= hooks.hooks.len(),
            out.len() == i,
            forall|j: int| 0 <= j < i ==> out[j]@ == ask_hook_msgs(hooks@, ask@, action)[j],
        decreases hooks.hooks.len() - i,
    {
        let msg = Msg::AskHook { contract_addr: hooks.hooks[i].clone(), ask: ask.clone(), action };
        out.push(SubMsg::reply_on_error(msg, HookReply::Ask.id()));
        i = i + 1;
    }
    assert(submsgs_view(out@) =~= ask_hook_msgs(hooks@, ask@, action));
    out
}

/// Queues the notification of the sale of `ask` to `buyer` for every sale
/// subscriber.
pub fn prepare_sale_hook(hooks: &Hooks, ask: &Ask, buyer: &String) -> (r: Vec<SubMsg>)
    ensures
        submsgs_view(r@) == sale_hook_msgs(hooks@, ask@, buyer@),
{
    let mut out: Vec<SubMsg> = Vec::new();
    let mut i: usize = 0;
    while i < hooks.hooks.len()
        invariant
            i <= hooks.hooks.len(),
            out.len() == i,
            forall|j: int| 0 <= j < i ==> out[j]@ == sale_hook_msgs(hooks@, ask@, buyer@)[j],
        decreases hooks.hooks.len() - i,
    {
        let msg = Msg::SaleHook {
            contract_addr: hooks.hooks[i].clone(),
            collection: ask.collection.clone(),
            token_id: ask.token_id.clone(),
            price: coin_native(ask.price),
            seller: ask.seller.clone(),
            buyer: buyer.clone(),
        };
        out.push(SubMsg::reply_on_error(msg, HookReply::Sale.id()));
        i = i + 1;
    }
    assert(submsgs_view(out@) =~= sale_hook_msgs(hooks@, ask@, buyer@));
    out
}

/// Queues the notification of `action` on `bid` for every bid subscriber.
pub fn prepare_bid_hook(hooks: &Hooks, bid: &Bid, action: HookAction) -> (r: Vec<SubMsg>)
    ensures
        submsgs_view(r@) == bid_hook_msgs(hooks@, bid@, action),
{
    let mut out: Vec<SubMsg> = Vec::new();
    let mut i: usize = 0;
    while i < hooks.hooks.len()
        invariant
            i <= hooks.hooks.len(),
            out.len() == i,
            forall|j: int| 0 <= j < i ==> out[j]@ == bid_hook_msgs(hooks@, bid@, action)[j],
        decreases hooks.hooks.len() - i,
    {
        let msg = Msg::BidHook { contract_addr: hooks.hooks[i].clone(), bid: bid.clone(), action };
        out.push(SubMsg::reply_on_error(msg, HookReply::Bid.id()));
        i = i + 1;
    }
    assert(submsgs_view(out@) =~= bid_hook_msgs(hooks@, bid@, action));
    out
}

/// Queues the notification of `action` on `collection_bid` for every
/// collection-bid subscriber.
pub fn prepare_collection_bid_hook(
    hooks: &Hooks,
    collection_bid: &CollectionBid,
    action: HookAction,
) -> (r: Vec<SubMsg>)
    ensures
        submsgs_view(r@) == collection_bid_hook_msgs(hooks@, collection_bid@, action),
{
    let mut out: Vec<SubMsg> = Vec::new();
    let mut i: usize = 0;
    while i < hooks.hooks.len()
        invariant
            i <= hooks.hooks.len(),
            out.len() == i,
            forall|j: int|
                0 <= j < i ==> out[j]@ == collection_bid_hook_msgs(
                    hooks@,
                    collection_bid@,
                    action,
                )[j],
        decreases hooks.hooks.len() - i,
    {
        let msg = Msg::CollectionBidHook {
            contract_addr: hooks.hooks[i].clone(),
            collection_bid: collection_bid.clone(),
            action,
        };
        out.push(SubMsg::reply_on_error(msg, HookReply::CollectionBid.id()));
        i = i + 1;
    }
    assert(submsgs_view(out@) =~= collection_bid_hook_msgs(hooks@, collection_bid@, action));
    out
}

} // verus!
