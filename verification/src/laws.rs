//! What holds of the marketplace whatever the state it is in and whoever
//! acts on it. Each statement is proved from the model of the actions.

use vstd::prelude::*;
use crate::ask_store::{by_seller_after, in_collection_after, AskStore};
use crate::error::{ContractErrorView, PaymentErrorView};
use crate::keyed::lemma_filter_holds;
use crate::market::{State, StateView};
use crate::model::{
    accept_bid_model, after, execute_model, leader_refund, remove_ask_model,
    remove_collection_bid_model, set_bid_model, set_collection_bid_model,
    update_ask_price_model,
};
use crate::msg::ExecuteMsg;
use crate::payment::{must_pay_spec, price_model};
use crate::hooks::{ask_hook_msgs, bid_hook_msgs, sale_hook_msgs};
use crate::response::{HookAction, MsgView, ResponseView, SubMsgView};
use crate::state::{AskView, BidView};
use crate::settlement::{
    finalize_sale_model, lemma_share_within, payout_model, royalty_share, send, transfer,
    RoyaltyInfoView, RoyaltyQueryView, DECIMAL_FRACTIONAL,
};
use crate::state::{AskKey, SaleType};
use crate::types::{CoinView, EnvView, MessageInfoView, NATIVE_DENOM};

verus! {

/// The stores hold at most one record for each key, and every record under
/// its own key: the ask for an item of a collection is the one ask listed
/// for that collection and item, and likewise for bids and collection bids.
pub proof fn law_one_record_per_key(state: &State)
    requires
        state.wf(),
    ensures
        state@.keyed(),
{
    state.asks.lemma_keyed();
    state.bids.lemma_keyed();
    state.collection_bids.lemma_keyed();
}

/// The listings by collection and by seller always agree with the store:
/// an ask is in the full listing of a collection, or of a seller, exactly
/// when it is stored under its key and is of that collection, or of that
/// seller.
pub proof fn law_listings_agree_with_the_store(
    store: &AskStore,
    collection: Seq<char>,
    seller: Seq<char>,
    ask: AskView,
)
    requires
        store.wf(),
    ensures
        store.entries().filter(in_collection_after(collection, None)).contains(ask) <==> (
        store@.contains_key(ask.key()) && store@[ask.key()] == ask && ask.collection
            == collection),
        store.entries().filter(by_seller_after(seller, None)).contains(ask) <==> (
        store@.contains_key(ask.key()) && store@[ask.key()] == ask && ask.seller == seller),
{
    store.lemma_listed(ask);
    lemma_filter_holds(store.entries(), in_collection_after(collection, None), ask);
    lemma_filter_holds(store.entries(), by_seller_after(seller, None), ask);
}

/// The leading amount of the ask under `key`, where there is one.
pub open spec fn leading_amount(s: StateView, key: AskKey) -> Option<u128> {
    if s.asks.contains_key(key) {
        s.asks[key].max_bid
    } else {
        None
    }
}

/// A bid on an auction is accepted only if it is strictly greater than the
/// leading amount, and then it becomes the leading amount and the bidder the
/// leader. A bid that is not greater, a tie included, is rejected, and the
/// state, the leader with it, stays as it was.
pub proof fn law_bid_must_outdo_leader(
    s: StateView,
    env: EnvView,
    info: MessageInfoView,
    collection: Seq<char>,
    token_id: Seq<char>,
    royalty: RoyaltyQueryView,
)
    requires
        s.asks.contains_key((collection, token_id)),
        s.asks[(collection, token_id)].sale_type == SaleType::Auction,
    ensures
        ({
            let key = (collection, token_id);
            let outcome = set_bid_model(s, env, info, collection, token_id, royalty);
            let next = after(s, outcome);
            &&& outcome is Ok ==> {
                &&& leading_amount(s, key) matches Some(before)
                &&& leading_amount(next, key) matches Some(now)
                &&& now > before
                &&& must_pay_spec(info.funds, NATIVE_DENOM@) == Ok::<u128, PaymentErrorView>(now)
                &&& next.asks[key].max_bidder == Some(info.sender)
            }
            &&& (must_pay_spec(info.funds, NATIVE_DENOM@) matches Ok(paid) && leading_amount(s, key)
                matches Some(before) && paid <= before) ==> outcome is Err && next == s
        }),
{
}

/// One attempt to bid: when and where it is made, by whom and with what
/// funds, and what the collection says of its royalties.
pub struct BidAttempt {
    pub env: EnvView,
    pub info: MessageInfoView,
    pub royalty: RoyaltyQueryView,
}

/// The state after the bids `attempts` have been tried on one item, one
/// after the other.
pub open spec fn after_bids(
    s: StateView,
    collection: Seq<char>,
    token_id: Seq<char>,
    attempts: Seq<BidAttempt>,
) -> StateView
    decreases attempts.len(),
{
    if attempts.len() == 0 {
        s
    } else {
        let before = after_bids(s, collection, token_id, attempts.drop_last());
        let last = attempts.last();
        after(before, set_bid_model(before, last.env, last.info, collection, token_id, last.royalty))
    }
}

/// Over any sequence of bids on one auction, the leading amount never goes
/// down: as long as the ask stands, it is at least what it was at the start.
pub proof fn law_leading_amount_never_falls(
    s: StateView,
    collection: Seq<char>,
    token_id: Seq<char>,
    attempts: Seq<BidAttempt>,
)
    requires
        s.asks.contains_key((collection, token_id)),
        s.asks[(collection, token_id)].sale_type == SaleType::Auction,
        s.asks[(collection, token_id)].max_bid is Some,
    ensures
        ({
            let key = (collection, token_id);
            let end = after_bids(s, collection, token_id, attempts);
            &&& end.asks.contains_key(key)
            &&& end.asks[key].sale_type == SaleType::Auction
            &&& leading_amount(end, key) matches Some(now)
            &&& now >= leading_amount(s, key).unwrap()
        }),
    decreases attempts.len(),
{
    if attempts.len() > 0 {
        law_leading_amount_never_falls(s, collection, token_id, attempts.drop_last());
    }
}

/// When a bid takes the lead from a bidder, the response holds exactly one
/// payment: the refund of the outgoing leader's amount to the outgoing
/// leader, ahead of everything else. When it takes the lead from the
/// marketplace itself, which stands for no bid, the response holds no
/// payment.
pub proof fn law_outbid_leader_is_refunded(
    s: StateView,
    env: EnvView,
    info: MessageInfoView,
    collection: Seq<char>,
    token_id: Seq<char>,
    royalty: RoyaltyQueryView,
)
    requires
        s.asks.contains_key((collection, token_id)),
        s.asks[(collection, token_id)].sale_type == SaleType::Auction,
        set_bid_model(s, env, info, collection, token_id, royalty) is Ok,
    ensures
        ({
            let ask = s.asks[(collection, token_id)];
            let response = set_bid_model(s, env, info, collection, token_id, royalty)->Ok_0.1;
            &&& ask.max_bidder matches Some(leader)
            &&& ask.max_bid matches Some(leading)
            &&& leader != env.contract ==> {
                &&& response.messages.len() >= 1
                &&& response.messages[0] == send(leader, leading)
                &&& forall|i: int|
                    1 <= i < response.messages.len() ==> !(#[trigger] response.messages[i].msg
                        is Send)
            }
            &&& leader == env.contract ==> forall|i: int|
                0 <= i < response.messages.len() ==> !(#[trigger] response.messages[i].msg is Send)
        }),
{
}

/// A bid that buys a fixed-price item takes its ask off the store: whoever
/// bids on the item or tries to close it afterwards finds no ask.
pub proof fn law_sold_ask_is_gone(
    s: StateView,
    env: EnvView,
    info: MessageInfoView,
    collection: Seq<char>,
    token_id: Seq<char>,
    royalty: RoyaltyQueryView,
    later_env: EnvView,
    later_info: MessageInfoView,
    later_bidder: Seq<char>,
    later_royalty: RoyaltyQueryView,
)
    requires
        s.asks.contains_key((collection, token_id)),
        s.asks[(collection, token_id)].sale_type == SaleType::FixedPrice,
        set_bid_model(s, env, info, collection, token_id, royalty) is Ok,
    ensures
        ({
            let next = after(s, set_bid_model(s, env, info, collection, token_id, royalty));
            &&& !next.asks.contains_key((collection, token_id))
            &&& set_bid_model(next, later_env, later_info, collection, token_id, later_royalty)
                == Err::<(StateView, ResponseView), ContractErrorView>(ContractErrorView::AskNotFound)
            &&& accept_bid_model(
                next,
                later_env,
                later_info,
                collection,
                token_id,
                later_bidder,
                later_royalty,
            ) == Err::<(StateView, ResponseView), ContractErrorView>(ContractErrorView::AskNotFound)
        }),
{
}

/// Closing a listing takes its ask off the store: whoever bids on the item
/// or tries to close it again finds no ask, so no ask is settled twice.
pub proof fn law_closed_ask_is_gone(
    s: StateView,
    env: EnvView,
    info: MessageInfoView,
    collection: Seq<char>,
    token_id: Seq<char>,
    bidder: Seq<char>,
    royalty: RoyaltyQueryView,
    later_env: EnvView,
    later_info: MessageInfoView,
    later_bidder: Seq<char>,
    later_royalty: RoyaltyQueryView,
)
    requires
        accept_bid_model(s, env, info, collection, token_id, bidder, royalty) is Ok,
    ensures
        ({
            let next = after(
                s,
                accept_bid_model(s, env, info, collection, token_id, bidder, royalty),
            );
            &&& !next.asks.contains_key((collection, token_id))
            &&& set_bid_model(next, later_env, later_info, collection, token_id, later_royalty)
                == Err::<(StateView, ResponseView), ContractErrorView>(ContractErrorView::AskNotFound)
            &&& accept_bid_model(
                next,
                later_env,
                later_info,
                collection,
                token_id,
                later_bidder,
                later_royalty,
            ) == Err::<(StateView, ResponseView), ContractErrorView>(ContractErrorView::AskNotFound)
        }),
{
}

/// With a royalty rate below one, the payout never fails: the royalty
/// recipient is paid the price times the rate, rounded down, the payee is
/// paid the rest, and the two payments add up to the price exactly.
pub proof fn law_royalty_split(
    collection: Seq<char>,
    price: u128,
    payee: Seq<char>,
    info: RoyaltyInfoView,
    res: ResponseView,
)
    requires
        info.royalty_rate.atomics < DECIMAL_FRACTIONAL,
    ensures
        ({
            let share = royalty_share(price, info.royalty_rate);
            let rest = price - share;
            &&& 0 <= share <= price
            &&& share + rest == price
            &&& payout_model(collection, price, payee, RoyaltyQueryView::Info(Some(info)), res)
                matches Ok(paid)
            &&& paid.messages == res.messages + seq![
                send(info.address, share as u128),
                send(payee, rest as u128),
            ]
        }),
{
    lemma_share_within(price, info.royalty_rate);
}

/// What one effect pays: the amount of a payment, and nothing for any other
/// effect.
pub open spec fn paid_by(m: SubMsgView) -> nat {
    match m.msg {
        MsgView::Send { amount, .. } => amount.amount as nat,
        _ => 0,
    }
}

/// What the effects `msgs` pay in all.
pub open spec fn total_paid(msgs: Seq<SubMsgView>) -> nat
    decreases msgs.len(),
{
    if msgs.len() == 0 {
        0
    } else {
        total_paid(msgs.drop_last()) + paid_by(msgs.last())
    }
}

/// Effects put one after the other pay what each run of them pays.
pub proof fn lemma_total_paid_add(a: Seq<SubMsgView>, b: Seq<SubMsgView>)
    ensures
        total_paid(a + b) == total_paid(a) + total_paid(b),
    decreases b.len(),
{
    if b.len() == 0 {
        assert(a + b =~= a);
    } else {
        assert((a + b).drop_last() =~= a + b.drop_last());
        lemma_total_paid_add(a, b.drop_last());
    }
}

/// Effects of which none is a payment pay nothing.
pub proof fn lemma_nothing_paid(msgs: Seq<SubMsgView>)
    requires
        forall|i: int| 0 <= i < msgs.len() ==> paid_by(#[trigger] msgs[i]) == 0,
    ensures
        total_paid(msgs) == 0,
    decreases msgs.len(),
{
    if msgs.len() > 0 {
        lemma_nothing_paid(msgs.drop_last());
    }
}

/// A sale that is settled pays out its price exactly, whatever the
/// collection's royalties are: the payments among the effects of the
/// settlement add up to the price, no more and no less.
pub proof fn law_settlement_pays_the_price(
    sale_hooks: Seq<Seq<char>>,
    ask: AskView,
    price: u128,
    buyer: Seq<char>,
    royalty: RoyaltyQueryView,
)
    ensures
        finalize_sale_model(sale_hooks, ask, price, buyer, royalty, ResponseView::empty())
            matches Ok(done) ==> total_paid(done.messages) == price,
{
    if let Ok(done) = finalize_sale_model(
        sale_hooks,
        ask,
        price,
        buyer,
        royalty,
        ResponseView::empty(),
    ) {
        let paid = payout_model(
            ask.collection,
            price,
            ask.payee(),
            royalty,
            ResponseView::empty(),
        )->Ok_0;
        let rest = done.messages.subrange(paid.messages.len() as int, done.messages.len() as int);
        assert(done.messages =~= paid.messages + rest);
        lemma_total_paid_add(paid.messages, rest);
        assert forall|i: int| 0 <= i < rest.len() implies paid_by(#[trigger] rest[i]) == 0 by {
            if i > 0 {
                assert(rest[i] == sale_hook_msgs(sale_hooks, ask, buyer)[i - 1]);
            }
        }
        lemma_nothing_paid(rest);
        let first = paid.messages.drop_last();
        assert(total_paid(paid.messages) == total_paid(first) + paid_by(paid.messages.last()));
        if paid.messages.len() == 2 {
            assert(first.drop_last().len() == 0);
            assert(total_paid(first) == total_paid(first.drop_last()) + paid_by(first.last()));
        } else {
            assert(first.len() == 0);
        }
    }
}

/// An ask counts as expired from the very moment of its expiry. A bid that
/// is otherwise in order is rejected as late exactly when the block time
/// has reached the expiry.
pub proof fn law_bid_expiry_boundary(
    s: StateView,
    env: EnvView,
    info: MessageInfoView,
    collection: Seq<char>,
    token_id: Seq<char>,
    royalty: RoyaltyQueryView,
)
    requires
        s.asks.contains_key((collection, token_id)),
        must_pay_spec(info.funds, NATIVE_DENOM@) matches Ok(paid) && (s.asks[(
            collection,
            token_id,
        )].sale_type == SaleType::Auction ==> paid >= s.params.min_price),
    ensures
        env.now >= s.asks[(collection, token_id)].expires_at <==> set_bid_model(
            s,
            env,
            info,
            collection,
            token_id,
            royalty,
        ) == Err::<(StateView, ResponseView), ContractErrorView>(ContractErrorView::AskExpired),
{
}

/// A change of price by the seller of an active ask, with an acceptable
/// price, is rejected as late exactly when the block time has reached the
/// expiry.
pub proof fn law_update_expiry_boundary(
    s: StateView,
    env: EnvView,
    info: MessageInfoView,
    collection: Seq<char>,
    token_id: Seq<char>,
    price: CoinView,
)
    requires
        s.asks.contains_key((collection, token_id)),
        info.funds.len() == 0,
        price_model(s.params.min_price, price) is Ok,
        s.asks[(collection, token_id)].seller == info.sender,
        s.asks[(collection, token_id)].is_active,
    ensures
        env.now >= s.asks[(collection, token_id)].expires_at <==> update_ask_price_model(
            s,
            env,
            info,
            collection,
            token_id,
            price,
        ) == Err::<(StateView, ResponseView), ContractErrorView>(ContractErrorView::AskExpired),
{
}

/// The seller can close a listing from the very moment of its expiry, and
/// not before: the attempt is rejected as early exactly when the block time
/// has not reached the expiry.
pub proof fn law_close_expiry_boundary(
    s: StateView,
    env: EnvView,
    info: MessageInfoView,
    collection: Seq<char>,
    token_id: Seq<char>,
    bidder: Seq<char>,
    royalty: RoyaltyQueryView,
)
    requires
        s.asks.contains_key((collection, token_id)),
        info.funds.len() == 0,
        s.asks[(collection, token_id)].seller == info.sender,
    ensures
        env.now < s.asks[(collection, token_id)].expires_at <==> accept_bid_model(
            s,
            env,
            info,
            collection,
            token_id,
            bidder,
            royalty,
        ) == Err::<(StateView, ResponseView), ContractErrorView>(ContractErrorView::AuctionNotEnded),
{
}

/// What the marketplace holds in escrow on `ask`: the leading amount, where
/// somebody other than the marketplace itself leads.
pub open spec fn escrowed_on(ask: AskView, contract: Seq<char>) -> nat {
    match (ask.max_bidder, ask.max_bid) {
        (Some(leader), Some(amount)) => if leader != contract {
            amount as nat
        } else {
            0
        },
        _ => 0,
    }
}

/// What the marketplace holds in escrow on the ask under `key`, if there is
/// one.
pub open spec fn escrowed_for(s: StateView, key: AskKey, contract: Seq<char>) -> nat {
    if s.asks.contains_key(key) {
        escrowed_on(s.asks[key], contract)
    } else {
        0
    }
}

/// Nobody leads a fixed-price ask: its leader is the marketplace itself.
pub open spec fn fixed_prices_unled(s: StateView, contract: Seq<char>) -> bool {
    forall|k: AskKey| #[trigger]
        s.asks.contains_key(k) && s.asks[k].sale_type == SaleType::FixedPrice
            ==> s.asks[k].max_bidder == Some(contract)
}

/// No action of a seller or a buyer makes anybody the leader of a
/// fixed-price ask.
pub proof fn law_fixed_prices_stay_unled(
    s: StateView,
    env: EnvView,
    info: MessageInfoView,
    msg: ExecuteMsg,
    royalty: RoyaltyQueryView,
)
    requires
        fixed_prices_unled(s, env.contract),
    ensures
        fixed_prices_unled(after(s, execute_model(s, env, info, msg, royalty)), env.contract),
{
    let next = after(s, execute_model(s, env, info, msg, royalty));
    assert forall|k: AskKey| #[trigger]
        next.asks.contains_key(k) && next.asks[k].sale_type == SaleType::FixedPrice
            implies next.asks[k].max_bidder == Some(env.contract) by {
        if s.asks.contains_key(k) {
            assert(s.asks[k].sale_type == SaleType::FixedPrice ==> s.asks[k].max_bidder == Some(
                env.contract,
            ));
        }
    }
}

/// A bid keeps the books of its ask balanced and leaves every other ask
/// alone: what is held in escrow on the ask after the bid, together with
/// what the response pays out, is what was held before together with what
/// the bidder paid in.
pub proof fn law_a_bid_balances(
    s: StateView,
    env: EnvView,
    info: MessageInfoView,
    collection: Seq<char>,
    token_id: Seq<char>,
    royalty: RoyaltyQueryView,
)
    requires
        fixed_prices_unled(s, env.contract),
        info.sender != env.contract,
        set_bid_model(s, env, info, collection, token_id, royalty) is Ok,
    ensures
        ({
            let key = (collection, token_id);
            let (next, response) = set_bid_model(s, env, info, collection, token_id, royalty)->Ok_0;
            &&& must_pay_spec(info.funds, NATIVE_DENOM@) matches Ok(paid_in)
            &&& escrowed_for(next, key, env.contract) + total_paid(response.messages)
                == escrowed_for(s, key, env.contract) + paid_in
            &&& forall|k: AskKey|
                k != key ==> next.asks.contains_key(k) == s.asks.contains_key(k) && next.asks[k]
                    == s.asks[k]
        }),
{
    let key = (collection, token_id);
    let ask = s.asks[key];
    let (next, response) = set_bid_model(s, env, info, collection, token_id, royalty)->Ok_0;
    let paid_in = must_pay_spec(info.funds, NATIVE_DENOM@)->Ok_0;
    match ask.sale_type {
        SaleType::FixedPrice => {
            assert(s.asks.contains_key(key));
            law_settlement_pays_the_price(s.sale_hooks, ask, paid_in, info.sender, royalty);
        },
        SaleType::Auction => {
            let bid = BidView { collection, token_id, bidder: info.sender, price: paid_in };
            let refund = leader_refund(ask, env.contract);
            let told = bid_hook_msgs(s.bid_hooks, bid, HookAction::Create);
            assert(response.messages =~= refund + told);
            lemma_total_paid_add(refund, told);
            lemma_nothing_paid(told);
            if refund.len() > 0 {
                assert(refund.drop_last().len() == 0);
                assert(total_paid(refund) == total_paid(refund.drop_last()) + paid_by(
                    refund.last(),
                ));
            }
        },
    }
}

/// Closing a listing pays out exactly what was held in escrow on it, and
/// leaves every other ask alone.
pub proof fn law_closing_balances(
    s: StateView,
    env: EnvView,
    info: MessageInfoView,
    collection: Seq<char>,
    token_id: Seq<char>,
    bidder: Seq<char>,
    royalty: RoyaltyQueryView,
)
    requires
        accept_bid_model(s, env, info, collection, token_id, bidder, royalty) is Ok,
    ensures
        ({
            let key = (collection, token_id);
            let (next, response) = accept_bid_model(
                s,
                env,
                info,
                collection,
                token_id,
                bidder,
                royalty,
            )->Ok_0;
            &&& escrowed_for(next, key, env.contract) == 0
            &&& total_paid(response.messages) == escrowed_for(s, key, env.contract)
            &&& forall|k: AskKey|
                k != key ==> next.asks.contains_key(k) == s.asks.contains_key(k) && next.asks[k]
                    == s.asks[k]
        }),
{
    let key = (collection, token_id);
    let ask = s.asks[key];
    let (next, response) = accept_bid_model(
        s,
        env,
        info,
        collection,
        token_id,
        bidder,
        royalty,
    )->Ok_0;
    let leader = ask.max_bidder->0;
    if leader == env.contract {
        let only = seq![transfer(collection, token_id, ask.seller)];
        assert(response.messages =~= only);
        lemma_nothing_paid(only);
    } else {
        law_settlement_pays_the_price(s.sale_hooks, ask, ask.max_bid->0, leader, royalty);
    }
}

/// Taking an auction off pays its leader back exactly what was held in
/// escrow on it, and leaves every other ask alone.
pub proof fn law_removal_balances(
    s: StateView,
    env: EnvView,
    info: MessageInfoView,
    collection: Seq<char>,
    token_id: Seq<char>,
)
    requires
        fixed_prices_unled(s, env.contract),
        remove_ask_model(s, env, info, collection, token_id) is Ok,
    ensures
        ({
            let key = (collection, token_id);
            let (next, response) = remove_ask_model(s, env, info, collection, token_id)->Ok_0;
            &&& escrowed_for(next, key, env.contract) == 0
            &&& total_paid(response.messages) == escrowed_for(s, key, env.contract)
            &&& forall|k: AskKey|
                k != key ==> next.asks.contains_key(k) == s.asks.contains_key(k) && next.asks[k]
                    == s.asks[k]
        }),
{
    let key = (collection, token_id);
    let ask = s.asks[key];
    let (next, response) = remove_ask_model(s, env, info, collection, token_id)->Ok_0;
    let refund = if ask.sale_type == SaleType::Auction {
        leader_refund(ask, env.contract)
    } else {
        seq![]
    };
    let told = ask_hook_msgs(s.ask_hooks, ask, HookAction::Delete);
    assert(s.asks.contains_key(key));
    assert(response.messages =~= refund + told);
    lemma_total_paid_add(refund, told);
    lemma_nothing_paid(told);
    if refund.len() > 0 {
        assert(refund.drop_last().len() == 0);
        assert(total_paid(refund) == total_paid(refund.drop_last()) + paid_by(refund.last()));
    }
}

/// A standing bid on a collection keeps the books balanced: placing one pays
/// back the bid it replaces, if any, and holds the new amount; withdrawing
/// one pays it back in full.
pub proof fn law_collection_bids_balance(
    s: StateView,
    env: EnvView,
    info: MessageInfoView,
    collection: Seq<char>,
    expires: u64,
)
    ensures
        ({
            let key = (collection, info.sender);
            let held = if s.collection_bids.contains_key(key) {
                s.collection_bids[key].price as nat
            } else {
                0
            };
            &&& set_collection_bid_model(s, env, info, collection, expires) matches Ok(
                (next, response),
            ) ==> {
                &&& must_pay_spec(info.funds, NATIVE_DENOM@) matches Ok(paid_in)
                &&& next.collection_bids.contains_key(key)
                &&& next.collection_bids[key].price == paid_in
                &&& total_paid(response.messages) == held
            }
            &&& remove_collection_bid_model(s, info, collection) matches Ok((next, response)) ==> {
                &&& !next.collection_bids.contains_key(key)
                &&& total_paid(response.messages) == held
            }
        }),
{
    let key = (collection, info.sender);
    if let Ok((next, response)) = set_collection_bid_model(s, env, info, collection, expires) {
        let refund = if s.collection_bids.contains_key(key) {
            seq![send(s.collection_bids[key].bidder, s.collection_bids[key].price)]
        } else {
            seq![]
        };
        let told = response.messages.subrange(refund.len() as int, response.messages.len() as int);
        assert(response.messages =~= refund + told);
        lemma_total_paid_add(refund, told);
        lemma_nothing_paid(told);
        if refund.len() > 0 {
            assert(refund.drop_last().len() == 0);
            assert(total_paid(refund) == total_paid(refund.drop_last()) + paid_by(refund.last()));
        }
    }
    if let Ok((next, response)) = remove_collection_bid_model(s, info, collection) {
        let refund = seq![send(s.collection_bids[key].bidder, s.collection_bids[key].price)];
        let told = response.messages.subrange(1, response.messages.len() as int);
        assert(response.messages =~= refund + told);
        lemma_total_paid_add(refund, told);
        lemma_nothing_paid(told);
        assert(refund.drop_last().len() == 0);
        assert(total_paid(refund) == total_paid(refund.drop_last()) + paid_by(refund.last()));
    }
}

} // verus!
