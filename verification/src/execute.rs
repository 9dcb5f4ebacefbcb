//! The actions of sellers and buyers.
//!
//! Each action either succeeds, changing the state and returning the effects
//! for the host to carry out, or fails and leaves the state untouched. What
//! each action does is laid down in `model`; the functions here compute it.

use vstd::prelude::*;
use vstd::string::*;
use crate::error::{ContractError, ContractErrorView, PaymentError};
use crate::hooks::{prepare_ask_hook, prepare_bid_hook, prepare_collection_bid_hook, HookReply};
use crate::market::{State, StateView};
use crate::model::{
    accept_bid_model, after, execute_model, instantiate_model, leader_refund, remove_ask_model,
    remove_collection_bid_model, reply_model, set_ask_model, set_bid_model,
    set_collection_bid_model, update_ask_price_model, Outcome,
};
use crate::msg::{BidInfo, Cw721ReceiveMsg, ExecuteMsg, InstantiateMsg, Reply};
use crate::payment::{fee_paid, must_pay, nonpayable, price_validate};
use crate::response::{
    submsgs_view, Event, HookAction, Msg, Response, ResponseView, SubMsg,
};
use crate::settlement::{finalize_sale, RoyaltyQuery};
use crate::state::{Ask, Bid, CollectionBid, SaleType, SudoParams, TokenId};
use crate::types::{coin_native, Coin, Env, MessageInfo, Timestamp, NATIVE_DENOM};

verus! {

/// `r` is what `outcome` says of the response or the failure.
pub open spec fn answers(r: Result<Response, ContractError>, outcome: Outcome) -> bool {
    match outcome {
        Ok((_, response)) => r matches Ok(x) && x@ == response,
        Err(e) => r matches Err(x) && x@ == e,
    }
}

/// Sets the marketplace up.
pub fn instantiate(_env: &Env, _info: &MessageInfo, msg: InstantiateMsg) -> (r: Result<
    (State, Response),
    ContractError,
>)
    ensures
        match instantiate_model(msg) {
            Ok((state, response)) => r matches Ok(x) && x.0.wf() && x.0@ == state && x.1@
                == response,
            Err(e) => r matches Err(x) && x@ == e,
        },
{
    if let Err(e) = msg.ask_expiry.validate() {
        return Err(ContractError::ExpiryRange(e));
    }
    if let Err(e) = msg.bid_expiry.validate() {
        return Err(ContractError::ExpiryRange(e));
    }
    let params = SudoParams {
        ask_expiry: msg.ask_expiry,
        bid_expiry: msg.bid_expiry,
        operators: msg.operators,
        min_price: msg.min_price,
        listing_fee: msg.listing_fee,
    };
    let mut state = State::new(params);
    if let Some(hook) = msg.sale_hook {
        let added = state.sale_hooks.add_hook(hook);
        assert(state.sale_hooks@ =~= seq![hook@]);
    }
    Ok((state, Response::new()))
}

/// Only the seller of an ask may act on it.
fn only_owner_nft(info: &MessageInfo, owner: &String) -> (r: Result<Response, ContractError>)
    ensures
        owner@ == info@.sender ==> (r matches Ok(x) && x@ == ResponseView::empty()),
        owner@ != info@.sender ==> (r matches Err(e) && e@ == ContractErrorView::UnauthorizedOwner),
{
    if *owner != info.sender {
        return Err(ContractError::UnauthorizedOwner);
    }
    Ok(Response::new())
}

/// Only a privileged operator passes: the caller's address is returned when
/// it is among the operators, and `UnauthorizedOperator` otherwise.
pub fn only_operator(params: &SudoParams, info: &MessageInfo) -> (r: Result<String, ContractError>)
    ensures
        params@.operators.contains(info@.sender) ==> (r matches Ok(a) && a@ == info@.sender),
        !params@.operators.contains(info@.sender) ==> (r matches Err(e) && e@
            == ContractErrorView::UnauthorizedOperator),
{
    let mut i: usize = 0;
    while i < params.operators.len()
        invariant
            i <= params.operators.len(),
            forall|j: int| 0 <= j < i ==> params@.operators[j] != info@.sender,
        decreases params.operators.len() - i,
    {
        if params.operators[i] == info.sender {
            assert(params@.operators[i as int] == info@.sender);
            return Ok(info.sender.clone());
        }
        i = i + 1;
    }
    Err(ContractError::UnauthorizedOperator)
}

/// Lists `ask` under its key.
fn store_ask(state: &mut State, ask: Ask)
    requires
        old(state).wf(),
    ensures
        final(state).wf(),
        final(state)@ == (StateView { asks: old(state)@.asks.insert(ask@.key(), ask@), ..old(state)@ }),
{
    state.asks.save(ask);
}

/// Records `bid` under its key.
fn store_bid(state: &mut State, bid: Bid)
    requires
        old(state).wf(),
    ensures
        final(state).wf(),
        final(state)@ == (StateView { bids: old(state)@.bids.insert(bid@.key(), bid@), ..old(state)@ }),
{
    state.bids.save(bid);
}

/// The refund owed to the leader of `ask`, if somebody leads.
fn refund_leader(ask: &Ask, contract: &String) -> (r: Vec<SubMsg>)
    ensures
        submsgs_view(r@) == leader_refund(ask@, contract@),
{
    let mut out: Vec<SubMsg> = Vec::new();
    match (&ask.max_bidder, ask.max_bid) {
        (Some(leader), Some(amount)) => {
            if *leader != *contract {
                out.push(
                    SubMsg::new(
                        Msg::Send { to_address: leader.clone(), amount: coin_native(amount) },
                    ),
                );
            }
        },
        _ => {},
    }
    assert(submsgs_view(out@) =~= leader_refund(ask@, contract@));
    out
}

/// A seller lists the item that was handed over.
pub fn execute_set_ask(
    state: &mut State,
    env: &Env,
    info: &MessageInfo,
    rcv_msg: Cw721ReceiveMsg,
) -> (r: Result<Response, ContractError>)
    requires
        old(state).wf(),
    ensures
        final(state).wf(),
        final(state)@ == after(old(state)@, set_ask_model(old(state)@, env@, info@, rcv_msg@)),
        answers(r, set_ask_model(old(state)@, env@, info@, rcv_msg@)),
{
    let terms = rcv_msg.msg;
    if rcv_msg.token_id != terms.token_id {
        return Err(ContractError::IdMismatch);
    }
    if let Err(e) = price_validate(&state.params, &terms.price) {
        return Err(e);
    }
    if let Err(e) = state.params.ask_expiry.is_valid(&env.block, terms.expires) {
        return Err(ContractError::ExpiryRange(e));
    }
    let listing_fee = match fee_paid(info) {
        Ok(fee) => fee,
        Err(e) => {
            return Err(ContractError::BidPaymentError(e));
        },
    };
    if listing_fee != state.params.listing_fee {
        return Err(ContractError::InvalidListingFee(listing_fee));
    }
    let event = Event::SetAsk {
        collection: terms.collection.clone(),
        token_id: terms.token_id.clone(),
        seller: rcv_msg.sender.clone(),
        price: terms.price.clone(),
        expires: terms.expires,
    };
    let ask = Ask {
        sale_type: terms.sale_type,
        collection: terms.collection,
        token_id: terms.token_id,
        seller: rcv_msg.sender,
        price: terms.price.amount,
        funds_recipient: terms.funds_recipient,
        expires_at: terms.expires,
        is_active: true,
        max_bidder: Some(env.contract.address.clone()),
        max_bid: Some(state.params.min_price),
    };
    let hook = prepare_ask_hook(&state.ask_hooks, &ask, HookAction::Create);
    store_ask(state, ask);
    let mut res = Response::new();
    res.add_submessages(hook);
    res.add_event(event);
    Ok(res)
}

/// The seller takes a listing off the marketplace.
pub fn execute_remove_ask(
    state: &mut State,
    env: &Env,
    info: &MessageInfo,
    collection: String,
    token_id: TokenId,
) -> (r: Result<Response, ContractError>)
    requires
        old(state).wf(),
    ensures
        final(state).wf(),
        final(state)@ == after(
            old(state)@,
            remove_ask_model(old(state)@, env@, info@, collection@, token_id@),
        ),
        answers(r, remove_ask_model(old(state)@, env@, info@, collection@, token_id@)),
{
    if !nonpayable(info) {
        return Err(ContractError::BidPaymentError(PaymentError::NonPayable));
    }
    let ask = match state.asks.load(&collection, &token_id) {
        Some(ask) => ask,
        None => {
            return Err(ContractError::AskNotFound);
        },
    };
    if let Err(e) = only_owner_nft(info, &ask.seller) {
        return Err(e);
    }
    state.asks.remove(&collection, &token_id);
    let refund = match ask.sale_type {
        SaleType::Auction => refund_leader(&ask, &env.contract.address),
        SaleType::FixedPrice => {
            let none: Vec<SubMsg> = Vec::new();
            assert(submsgs_view(none@) =~= seq![]);
            none
        },
    };
    let hook = prepare_ask_hook(&state.ask_hooks, &ask, HookAction::Delete);
    let mut res = Response::new();
    res.add_submessages(refund);
    res.add_event(Event::RemoveAsk { collection, token_id });
    res.add_submessages(hook);
    Ok(res)
}

/// The seller changes the price of a listing.
pub fn execute_update_ask_price(
    state: &mut State,
    env: &Env,
    info: &MessageInfo,
    collection: String,
    token_id: TokenId,
    price: Coin,
) -> (r: Result<Response, ContractError>)
    requires
        old(state).wf(),
    ensures
        final(state).wf(),
        final(state)@ == after(
            old(state)@,
            update_ask_price_model(old(state)@, env@, info@, collection@, token_id@, price@),
        ),
        answers(
            r,
            update_ask_price_model(old(state)@, env@, info@, collection@, token_id@, price@),
        ),
{
    if !nonpayable(info) {
        return Err(ContractError::BidPaymentError(PaymentError::NonPayable));
    }
    if let Err(e) = price_validate(&state.params, &price) {
        return Err(e);
    }
    let mut ask = match state.asks.load(&collection, &token_id) {
        Some(ask) => ask,
        None => {
            return Err(ContractError::AskNotFound);
        },
    };
    if let Err(e) = only_owner_nft(info, &ask.seller) {
        return Err(e);
    }
    if !ask.is_active {
        return Err(ContractError::AskNotActive);
    }
    if ask.is_expired(&env.block) {
        return Err(ContractError::AskExpired);
    }
    ask.price = price.amount;
    let hook = prepare_ask_hook(&state.ask_hooks, &ask, HookAction::Update);
    store_ask(state, ask);
    let mut res = Response::new();
    res.add_event(Event::UpdateAsk { collection, token_id, price });
    res.add_submessages(hook);
    Ok(res)
}

/// A buyer bids on a listed item; the bid is the payment attached.
pub fn execute_set_bid(
    state: &mut State,
    env: &Env,
    info: &MessageInfo,
    bid_info: BidInfo,
    royalty: &RoyaltyQuery,
) -> (r: Result<Response, ContractError>)
    requires
        old(state).wf(),
    ensures
        final(state).wf(),
        final(state)@ == after(
            old(state)@,
            set_bid_model(
                old(state)@,
                env@,
                info@,
                bid_info.collection@,
                bid_info.token_id@,
                royalty@,
            ),
        ),
        answers(
            r,
            set_bid_model(
                old(state)@,
                env@,
                info@,
                bid_info.collection@,
                bid_info.token_id@,
                royalty@,
            ),
        ),
{
    let BidInfo { collection, token_id } = bid_info;
    let mut ask = match state.asks.load(&collection, &token_id) {
        Some(ask) => ask,
        None => {
            return Err(ContractError::AskNotFound);
        },
    };
    let bid_price = match must_pay(info, NATIVE_DENOM) {
        Ok(amount) => amount,
        Err(e) => {
            return Err(ContractError::BidPaymentError(e));
        },
    };
    let auction = match ask.sale_type {
        SaleType::Auction => true,
        SaleType::FixedPrice => false,
    };
    if auction && bid_price < state.params.min_price {
        return Err(ContractError::PriceTooSmall(bid_price));
    }
    if ask.is_expired(&env.block) {
        return Err(ContractError::AskExpired);
    }
    if !ask.is_active {
        return Err(ContractError::AskNotActive);
    }
    let bidder = info.sender.clone();
    let event = Event::SetBid {
        collection: collection.clone(),
        token_id: token_id.clone(),
        bidder: bidder.clone(),
        bid_price,
    };
    let mut res = Response::new();
    match ask.sale_type {
        SaleType::FixedPrice => {
            if ask.price != bid_price {
                return Err(ContractError::InvalidPrice);
            }
            if let Err(e) = finalize_sale(
                &state.sale_hooks,
                &ask,
                bid_price,
                &bidder,
                royalty,
                &mut res,
            ) {
                return Err(e);
            }
            state.asks.remove(&collection, &token_id);
        },
        SaleType::Auction => {
            let leading = match (&ask.max_bidder, ask.max_bid) {
                (Some(_), Some(leading)) => leading,
                _ => {
                    return Err(ContractError::WrongAskInfo);
                },
            };
            if bid_price <= leading {
                return Err(ContractError::InsufficientFundsSend);
            }
            let refund = refund_leader(&ask, &env.contract.address);
            ask.max_bid = Some(bid_price);
            ask.max_bidder = Some(bidder.clone());
            store_ask(state, ask);
            let bid = Bid::new(collection, token_id, bidder, bid_price);
            let hook = prepare_bid_hook(&state.bid_hooks, &bid, HookAction::Create);
            store_bid(state, bid);
            res.add_submessages(refund);
            res.add_submessages(hook);
        },
    }
    res.add_event(event);
    Ok(res)
}

/// The seller closes a listing that has ended: the item goes to the leader
/// against the leading amount, or back to the seller where nobody has bid.
pub fn execute_accept_bid(
    state: &mut State,
    env: &Env,
    info: &MessageInfo,
    collection: String,
    token_id: TokenId,
    bidder: String,
    royalty: &RoyaltyQuery,
) -> (r: Result<Response, ContractError>)
    requires
        old(state).wf(),
    ensures
        final(state).wf(),
        final(state)@ == after(
            old(state)@,
            accept_bid_model(
                old(state)@,
                env@,
                info@,
                collection@,
                token_id@,
                bidder@,
                royalty@,
            ),
        ),
        answers(
            r,
            accept_bid_model(
                old(state)@,
                env@,
                info@,
                collection@,
                token_id@,
                bidder@,
                royalty@,
            ),
        ),
{
    let ask = match state.asks.load(&collection, &token_id) {
        Some(ask) => ask,
        None => {
            return Err(ContractError::AskNotFound);
        },
    };
    if !nonpayable(info) {
        return Err(ContractError::BidPaymentError(PaymentError::NonPayable));
    }
    if let Err(e) = only_owner_nft(info, &ask.seller) {
        return Err(e);
    }
    if !ask.is_expired(&env.block) {
        return Err(ContractError::AuctionNotEnded);
    }
    if !ask.is_active {
        return Err(ContractError::AskNotActive);
    }
    let mut res = Response::new();
    match &ask.max_bidder {
        None => {
            return Err(ContractError::WrongAskInfo);
        },
        Some(leader) => {
            if *leader == env.contract.address {
                res.add_message(
                    Msg::TransferNft {
                        contract_addr: collection.clone(),
                        token_id: token_id.clone(),
                        recipient: ask.seller.clone(),
                    },
                );
            } else {
                let leading = match ask.max_bid {
                    Some(leading) => leading,
                    None => {
                        return Err(ContractError::WrongAskInfo);
                    },
                };
                if let Err(e) = finalize_sale(
                    &state.sale_hooks,
                    &ask,
                    leading,
                    leader,
                    royalty,
                    &mut res,
                ) {
                    return Err(e);
                }
            }
        },
    }
    state.asks.remove(&collection, &token_id);
    res.add_event(Event::AcceptBid { collection, token_id, bidder });
    Ok(res)
}

/// A buyer places a standing bid on a collection; the bid is the payment
/// attached.
pub fn execute_set_collection_bid(
    state: &mut State,
    env: &Env,
    info: &MessageInfo,
    collection: String,
    expires: Timestamp,
) -> (r: Result<Response, ContractError>)
    requires
        old(state).wf(),
    ensures
        final(state).wf(),
        final(state)@ == after(
            old(state)@,
            set_collection_bid_model(old(state)@, env@, info@, collection@, expires.nanos),
        ),
        answers(
            r,
            set_collection_bid_model(old(state)@, env@, info@, collection@, expires.nanos),
        ),
{
    let price = match must_pay(info, NATIVE_DENOM) {
        Ok(amount) => amount,
        Err(e) => {
            return Err(ContractError::BidPaymentError(e));
        },
    };
    if price < state.params.min_price {
        return Err(ContractError::PriceTooSmall(price));
    }
    if let Err(e) = state.params.bid_expiry.is_valid(&env.block, expires) {
        return Err(ContractError::ExpiryRange(e));
    }
    let bidder = info.sender.clone();
    let mut res = Response::new();
    match state.collection_bids.load(&collection, &bidder) {
        Some(existing) => {
            res.add_message(
                Msg::Send { to_address: existing.bidder, amount: coin_native(existing.price) },
            );
        },
        None => {
            assert(res@ == ResponseView::empty().with_messages(seq![])) by {
                assert(res@.messages =~= ResponseView::empty().messages + seq![]);
            }
        },
    }
    let collection_bid = CollectionBid {
        collection: collection.clone(),
        bidder: bidder.clone(),
        price,
        expires_at: expires,
    };
    let hook = prepare_collection_bid_hook(
        &state.collection_bid_hooks,
        &collection_bid,
        HookAction::Create,
    );
    state.collection_bids.save(collection_bid);
    res.add_event(Event::SetCollectionBid { collection, bidder, bid_price: price, expires });
    res.add_submessages(hook);
    Ok(res)
}

/// A buyer withdraws a standing bid on a collection and is refunded.
pub fn execute_remove_collection_bid(
    state: &mut State,
    _env: &Env,
    info: &MessageInfo,
    collection: String,
) -> (r: Result<Response, ContractError>)
    requires
        old(state).wf(),
    ensures
        final(state).wf(),
        final(state)@ == after(
            old(state)@,
            remove_collection_bid_model(old(state)@, info@, collection@),
        ),
        answers(r, remove_collection_bid_model(old(state)@, info@, collection@)),
{
    if !nonpayable(info) {
        return Err(ContractError::BidPaymentError(PaymentError::NonPayable));
    }
    let bidder = info.sender.clone();
    let collection_bid = match state.collection_bids.load(&collection, &bidder) {
        Some(bid) => bid,
        None => {
            return Err(ContractError::BidNotFound);
        },
    };
    state.collection_bids.remove(&collection, &bidder);
    let hook = prepare_collection_bid_hook(
        &state.collection_bid_hooks,
        &collection_bid,
        HookAction::Delete,
    );
    let mut res = Response::new();
    res.add_message(
        Msg::Send {
            to_address: collection_bid.bidder.clone(),
            amount: coin_native(collection_bid.price),
        },
    );
    res.add_event(Event::RemoveCollectionBid { collection, bidder });
    res.add_submessages(hook);
    Ok(res)
}

/// Carries out the action that `msg` names. `royalty` is what the collection
/// of the item answered when asked for its royalties; it is read only where
/// the action settles a sale.
pub fn execute(
    state: &mut State,
    env: &Env,
    info: &MessageInfo,
    msg: ExecuteMsg,
    royalty: &RoyaltyQuery,
) -> (r: Result<Response, ContractError>)
    requires
        old(state).wf(),
    ensures
        final(state).wf(),
        final(state)@ == after(old(state)@, execute_model(old(state)@, env@, info@, msg, royalty@)),
        answers(r, execute_model(old(state)@, env@, info@, msg, royalty@)),
{
    match msg {
        ExecuteMsg::ReceiveNft(rcv_msg) => execute_set_ask(state, env, info, rcv_msg),
        ExecuteMsg::RemoveAsk { collection, token_id } => execute_remove_ask(
            state,
            env,
            info,
            collection,
            token_id,
        ),
        ExecuteMsg::SetBid { collection, token_id } => execute_set_bid(
            state,
            env,
            info,
            BidInfo { collection, token_id },
            royalty,
        ),
        ExecuteMsg::AcceptBid { collection, token_id, bidder } => execute_accept_bid(
            state,
            env,
            info,
            collection,
            token_id,
            bidder,
            royalty,
        ),
        ExecuteMsg::UpdateAskPrice { collection, token_id, price } => execute_update_ask_price(
            state,
            env,
            info,
            collection,
            token_id,
            price,
        ),
        ExecuteMsg::SetCollectionBid { collection, expires } => execute_set_collection_bid(
            state,
            env,
            info,
            collection,
            expires,
        ),
        ExecuteMsg::RemoveCollectionBid { collection } => execute_remove_collection_bid(
            state,
            env,
            info,
            collection,
        ),
    }
}

/// Takes the host's report that a notification failed. The failure is put on
/// record; the action that sent the notification stands.
pub fn reply(msg: Reply) -> (r: Result<Response, ContractError>)
    ensures
        match reply_model(msg) {
            Ok(response) => r matches Ok(x) && x@ == response,
            Err(e) => r matches Err(x) && x@ == e,
        },
{
    let family = match HookReply::from_id(msg.id) {
        Some(family) => family,
        None => {
            return Err(ContractError::Std(String::from_str("invalid reply type")));
        },
    };
    let error = match msg.result {
        Err(error) => error,
        Ok(()) => {
            return Err(ContractError::Std(String::from_str("reply without error")));
        },
    };
    let action = match family {
        HookReply::Ask => String::from_str("ask-hook-failed"),
        HookReply::Sale => String::from_str("sale-hook-failed"),
        HookReply::Bid => String::from_str("bid-hook-failed"),
        HookReply::CollectionBid => String::from_str("collection-bid-hook-failed"),
    };
    let mut res = Response::new();
    res.add_attribute(String::from_str("action"), action);
    res.add_attribute(String::from_str("error"), error);
    Ok(res)
}

} // verus!
