//! The questions the marketplace answers. A query reads the state and
//! changes nothing.

use vstd::prelude::*;
use crate::ask_store::{by_seller_after, cursor_view, in_collection_after, page_limit};
use crate::bid_store::{bid_of, on_item_after};
use crate::keyed::page;
use crate::market::State;
use crate::msg::{
    AskCountResponse, AsksResponse, BidResponse, BidsResponse, CollectionBidResponse,
    CurrentAskResponse, OperatorsResponse, ParamResponse, QueryMsg,
};
use crate::state::{asks_view, bids_view, TokenId};
use crate::types::{clone_strings, opt_str_view, strs_view};

verus! {

/// The ask on `token_id` of `collection`, if it is listed.
pub fn query_ask(state: &State, collection: &String, token_id: &TokenId) -> (r: CurrentAskResponse)
    requires
        state.wf(),
    ensures
        match r.ask {
            Some(a) => state@.asks.contains_key((collection@, token_id@)) && a@ == state@.asks[(
                collection@,
                token_id@,
            )],
            None => !state@.asks.contains_key((collection@, token_id@)),
        },
{
    CurrentAskResponse { ask: state.asks.load(collection, token_id) }
}

/// A page of the asks of `collection`, in ascending order of their items.
pub fn query_asks(
    state: &State,
    collection: &String,
    start_after: &Option<TokenId>,
    limit: Option<u32>,
) -> (r: AsksResponse)
    requires
        state.wf(),
    ensures
        asks_view(r.asks@) == page(
            state.asks.entries().filter(
                in_collection_after(collection@, opt_str_view(*start_after)),
            ),
            page_limit(limit),
        ),
{
    AsksResponse { asks: state.asks.asks_by_collection(collection, start_after, limit) }
}

/// How many asks `collection` has; a count beyond the range of the answer
/// reads as the largest count it can hold.
pub fn query_ask_count(state: &State, collection: &String) -> (r: AskCountResponse)
    ensures
        ({
            let n = state.asks.entries().filter(in_collection_after(collection@, None)).len();
            r.count == if n <= u32::MAX {
                n
            } else {
                u32::MAX as nat
            }
        }),
{
    let n = state.asks.count_in_collection(collection);
    AskCountResponse {
        count: if n <= u32::MAX as usize {
            n as u32
        } else {
            u32::MAX
        },
    }
}

/// A page of the asks of `seller`, in ascending key order.
pub fn query_asks_by_seller(
    state: &State,
    seller: &String,
    start_after: &Option<(String, TokenId)>,
    limit: Option<u32>,
) -> (r: AsksResponse)
    requires
        state.wf(),
    ensures
        asks_view(r.asks@) == page(
            state.asks.entries().filter(by_seller_after(seller@, cursor_view(*start_after))),
            page_limit(limit),
        ),
{
    AsksResponse { asks: state.asks.asks_by_seller(seller, start_after, limit) }
}

/// The bid of `bidder` on `token_id` of `collection`, if one is on record.
pub fn query_bid(state: &State, collection: &String, token_id: &TokenId, bidder: &String) -> (r:
    BidResponse)
    requires
        state.wf(),
    ensures
        match r.bid {
            Some(b) => state@.bids.contains_key((collection@, token_id@, bidder@)) && b@
                == state@.bids[(collection@, token_id@, bidder@)],
            None => !state@.bids.contains_key((collection@, token_id@, bidder@)),
        },
{
    BidResponse { bid: state.bids.load(collection, token_id, bidder) }
}

/// A page of the bids on `token_id` of `collection`, in ascending order of
/// their bidders.
pub fn query_bids(
    state: &State,
    collection: &String,
    token_id: &TokenId,
    start_after: &Option<String>,
    limit: Option<u32>,
) -> (r: BidsResponse)
    requires
        state.wf(),
    ensures
        bids_view(r.bids@) == page(
            state.bids.entries().filter(
                on_item_after(collection@, token_id@, opt_str_view(*start_after)),
            ),
            page_limit(limit),
        ),
{
    BidsResponse { bids: state.bids.bids_on_item(collection, token_id, start_after, limit) }
}

/// All the bids on `token_id` of `collection`, in ascending order of their
/// bidders.
pub fn query_all_bids(state: &State, collection: &String, token_id: &TokenId) -> (r: BidsResponse)
    ensures
        bids_view(r.bids@) == state.bids.entries().filter(
            on_item_after(collection@, token_id@, None),
        ),
{
    BidsResponse { bids: state.bids.all_bids_on_item(collection, token_id) }
}

/// All the bids of `bidder`, in ascending key order.
pub fn query_bids_by_bidder(state: &State, bidder: &String) -> (r: BidsResponse)
    ensures
        bids_view(r.bids@) == state.bids.entries().filter(bid_of(bidder@)),
{
    BidsResponse { bids: state.bids.bids_by_bidder(bidder) }
}

/// The standing bid of `bidder` on `collection`, if there is one.
pub fn query_collection_bid(state: &State, collection: &String, bidder: &String) -> (r:
    CollectionBidResponse)
    requires
        state.wf(),
    ensures
        match r.bid {
            Some(b) => state@.collection_bids.contains_key((collection@, bidder@)) && b@
                == state@.collection_bids[(collection@, bidder@)],
            None => !state@.collection_bids.contains_key((collection@, bidder@)),
        },
{
    CollectionBidResponse { bid: state.collection_bids.load(collection, bidder) }
}

/// The parameters in force.
pub fn query_params(state: &State) -> (r: ParamResponse)
    ensures
        r.params@ == state@.params,
{
    ParamResponse { params: state.params.clone() }
}

/// The privileged operators.
pub fn query_operators(state: &State) -> (r: OperatorsResponse)
    ensures
        strs_view(r.operators@) == state@.params.operators,
{
    OperatorsResponse { operators: clone_strings(&state.params.operators) }
}

/// The answer to a question, by the kind of question.
#[derive(Debug, PartialEq, Eq)]
pub enum QueryResponse {
    CurrentAsk(CurrentAskResponse),
    Asks(AsksResponse),
    AskCount(AskCountResponse),
    Bid(BidResponse),
    Bids(BidsResponse),
    CollectionBid(CollectionBidResponse),
    Params(ParamResponse),
    Operators(OperatorsResponse),
}

/// `r` is the answer of the function that `msg` names, on what `msg` holds.
pub open spec fn answers_query(state: &State, msg: QueryMsg, r: QueryResponse) -> bool {
    match msg {
        QueryMsg::CurrentAsk { collection, token_id } => r matches QueryResponse::CurrentAsk(x)
            && call_ensures(query_ask, (state, &collection, &token_id), x),
        QueryMsg::Asks { collection, start_after, limit } => r matches QueryResponse::Asks(x)
            && call_ensures(query_asks, (state, &collection, &start_after, limit), x),
        QueryMsg::AskCount { collection } => r matches QueryResponse::AskCount(x) && call_ensures(
            query_ask_count,
            (state, &collection),
            x,
        ),
        QueryMsg::AsksBySeller { seller, start_after_ask, limit } => r matches QueryResponse::Asks(
            x,
        ) && call_ensures(query_asks_by_seller, (state, &seller, &start_after_ask, limit), x),
        QueryMsg::Bid { collection, token_id, bidder } => r matches QueryResponse::Bid(x)
            && call_ensures(query_bid, (state, &collection, &token_id, &bidder), x),
        QueryMsg::BidsByBidder { bidder } => r matches QueryResponse::Bids(x) && call_ensures(
            query_bids_by_bidder,
            (state, &bidder),
            x,
        ),
        QueryMsg::Bids { collection, token_id, start_after, limit } => r matches QueryResponse::Bids(
            x,
        ) && call_ensures(query_bids, (state, &collection, &token_id, &start_after, limit), x),
        QueryMsg::CollectionBid { collection, bidder } => r matches QueryResponse::CollectionBid(x)
            && call_ensures(query_collection_bid, (state, &collection, &bidder), x),
        QueryMsg::Params {  } => r matches QueryResponse::Params(x) && call_ensures(
            query_params,
            (state,),
            x,
        ),
        QueryMsg::Operators {  } => r matches QueryResponse::Operators(x) && call_ensures(
            query_operators,
            (state,),
            x,
        ),
    }
}

/// Answers the question that `msg` asks.
pub fn query(state: &State, msg: QueryMsg) -> (r: QueryResponse)
    requires
        state.wf(),
    ensures
        answers_query(state, msg, r),
{
    match msg {
        QueryMsg::CurrentAsk { collection, token_id } => QueryResponse::CurrentAsk(
            query_ask(state, &collection, &token_id),
        ),
        QueryMsg::Asks { collection, start_after, limit } => QueryResponse::Asks(
            query_asks(state, &collection, &start_after, limit),
        ),
        QueryMsg::AskCount { collection } => QueryResponse::AskCount(
            query_ask_count(state, &collection),
        ),
        QueryMsg::AsksBySeller { seller, start_after_ask, limit } => QueryResponse::Asks(
            query_asks_by_seller(state, &seller, &start_after_ask, limit),
        ),
        QueryMsg::Bid { collection, token_id, bidder } => QueryResponse::Bid(
            query_bid(state, &collection, &token_id, &bidder),
        ),
        QueryMsg::BidsByBidder { bidder } => QueryResponse::Bids(
            query_bids_by_bidder(state, &bidder),
        ),
        QueryMsg::Bids { collection, token_id, start_after, limit } => QueryResponse::Bids(
            query_bids(state, &collection, &token_id, &start_after, limit),
        ),
        QueryMsg::CollectionBid { collection, bidder } => QueryResponse::CollectionBid(
            query_collection_bid(state, &collection, &bidder),
        ),
        QueryMsg::Params {  } => QueryResponse::Params(query_params(state)),
        QueryMsg::Operators {  } => QueryResponse::Operators(query_operators(state)),
    }
}

} // verus!
