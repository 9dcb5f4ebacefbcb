//! The marketplace as a state machine: for each action, the state and the
//! response it leads to, or the failure it ends in.
//!
//! An action checks everything before it changes anything, and its checks
//! come in a fixed order, so each input has exactly one outcome.

use vstd::prelude::*;
use crate::error::{ContractErrorView, ExpiryRangeError, PaymentErrorView};
use crate::expiry::expiry_in_window;
use crate::hooks::{ask_hook_msgs, bid_hook_msgs, collection_bid_hook_msgs, HookReply};
use crate::market::StateView;
use crate::msg::{Cw721ReceiveMsgView, ExecuteMsg, InstantiateMsg, Reply};
use crate::payment::{fee_paid_spec, must_pay_spec, price_model};
use crate::response::{EventView, HookAction, ResponseView, SubMsgView};
use crate::settlement::{finalize_sale_model, send, transfer, RoyaltyQueryView};
use crate::state::{AskView, BidView, CollectionBidView, SaleType, SudoParamsView};
use crate::types::{strs_view, CoinView, EnvView, MessageInfoView, NATIVE_DENOM};

verus! {

/// Where an action leads: the next state and the response, or a failure.
pub type Outcome = Result<(StateView, ResponseView), ContractErrorView>;

/// The state after an action: the next state where it succeeded, the state
/// before it where it failed.
pub open spec fn after(before: StateView, outcome: Outcome) -> StateView {
    match outcome {
        Ok((next, _)) => next,
        Err(_) => before,
    }
}

/// The refund owed to the leader of `ask`: its leading amount, unless the
/// leader is the marketplace itself, which stands for "nobody has bid".
pub open spec fn leader_refund(ask: AskView, contract: Seq<char>) -> Seq<SubMsgView> {
    match (ask.max_bidder, ask.max_bid) {
        (Some(leader), Some(amount)) => if leader != contract {
            seq![send(leader, amount)]
        } else {
            seq![]
        },
        _ => seq![],
    }
}

/// Listing an item.
///
/// In order: the item named in the terms must be the item handed over
/// (`IdMismatch`); the price must be acceptable; the expiry must lie in the
/// window for asks; the listing fee must be paid exactly
/// (`InvalidListingFee`). The ask then replaces any ask on the same item,
/// with the marketplace itself as leader at the minimum price, and the ask
/// subscribers are told of its creation.
pub open spec fn set_ask_model(
    s: StateView,
    env: EnvView,
    info: MessageInfoView,
    rcv: Cw721ReceiveMsgView,
) -> Outcome {
    let terms = rcv.msg;
    if rcv.token_id != terms.token_id {
        Err(ContractErrorView::IdMismatch)
    } else if let Err(e) = price_model(s.params.min_price, terms.price) {
        Err(e)
    } else if !expiry_in_window(s.params.ask_expiry, env.now, terms.expires) {
        Err(ContractErrorView::ExpiryRange(ExpiryRangeError::InvalidExpiration))
    } else {
        match fee_paid_spec(info.funds) {
            Err(e) => Err(ContractErrorView::BidPaymentError(e)),
            Ok(fee) => if fee != s.params.listing_fee {
                Err(ContractErrorView::InvalidListingFee(fee))
            } else {
                let ask = AskView {
                    sale_type: terms.sale_type,
                    collection: terms.collection,
                    token_id: terms.token_id,
                    seller: rcv.sender,
                    price: terms.price.amount,
                    funds_recipient: terms.funds_recipient,
                    expires_at: terms.expires,
                    is_active: true,
                    max_bidder: Some(env.contract),
                    max_bid: Some(s.params.min_price),
                };
                Ok(
                    (
                        StateView { asks: s.asks.insert(ask.key(), ask), ..s },
                        ResponseView::empty().with_messages(
                            ask_hook_msgs(s.ask_hooks, ask, HookAction::Create),
                        ).with_event(
                            EventView::SetAsk {
                                collection: ask.collection,
                                token_id: ask.token_id,
                                seller: ask.seller,
                                price: terms.price,
                                expires: terms.expires,
                            },
                        ),
                    ),
                )
            },
        }
    }
}

/// Taking a listing off.
///
/// In order: no funds may be attached (`NonPayable`); the ask must exist
/// (`AskNotFound`); the caller must be its seller (`UnauthorizedOwner`). The
/// ask is removed; the leader of an auction is refunded; the ask subscribers
/// are told of the removal. The item is not moved.
pub open spec fn remove_ask_model(
    s: StateView,
    env: EnvView,
    info: MessageInfoView,
    collection: Seq<char>,
    token_id: Seq<char>,
) -> Outcome {
    let key = (collection, token_id);
    if info.funds.len() != 0 {
        Err(ContractErrorView::BidPaymentError(PaymentErrorView::NonPayable))
    } else if !s.asks.contains_key(key) {
        Err(ContractErrorView::AskNotFound)
    } else {
        let ask = s.asks[key];
        if ask.seller != info.sender {
            Err(ContractErrorView::UnauthorizedOwner)
        } else {
            let refund = if ask.sale_type == SaleType::Auction {
                leader_refund(ask, env.contract)
            } else {
                seq![]
            };
            Ok(
                (
                    StateView { asks: s.asks.remove(key), ..s },
                    ResponseView::empty().with_messages(refund).with_event(
                        EventView::RemoveAsk { collection, token_id },
                    ).with_messages(ask_hook_msgs(s.ask_hooks, ask, HookAction::Delete)),
                ),
            )
        }
    }
}

/// Changing the price of a listing.
///
/// In order: no funds may be attached; the new price must be acceptable; the
/// ask must exist; the caller must be its seller; the ask must be active
/// (`AskNotActive`) and must not have expired (`AskExpired`). The ask takes
/// the new price and the ask subscribers are told of the update.
pub open spec fn update_ask_price_model(
    s: StateView,
    env: EnvView,
    info: MessageInfoView,
    collection: Seq<char>,
    token_id: Seq<char>,
    price: CoinView,
) -> Outcome {
    let key = (collection, token_id);
    if info.funds.len() != 0 {
        Err(ContractErrorView::BidPaymentError(PaymentErrorView::NonPayable))
    } else if let Err(e) = price_model(s.params.min_price, price) {
        Err(e)
    } else if !s.asks.contains_key(key) {
        Err(ContractErrorView::AskNotFound)
    } else {
        let ask = s.asks[key];
        if ask.seller != info.sender {
            Err(ContractErrorView::UnauthorizedOwner)
        } else if !ask.is_active {
            Err(ContractErrorView::AskNotActive)
        } else if ask.is_expired(env.now) {
            Err(ContractErrorView::AskExpired)
        } else {
            let updated = AskView { price: price.amount, ..ask };
            Ok(
                (
                    StateView { asks: s.asks.insert(key, updated), ..s },
                    ResponseView::empty().with_event(
                        EventView::UpdateAsk { collection, token_id, price },
                    ).with_messages(ask_hook_msgs(s.ask_hooks, updated, HookAction::Update)),
                ),
            )
        }
    }
}

/// Bidding on a listed item.
///
/// In order: the ask must exist (`AskNotFound`); exactly one non-zero coin of
/// the accepted denomination must be attached; on an auction it must not be
/// below the minimum price (`PriceTooSmall`); the ask must not have expired
/// (`AskExpired`) and must be active (`AskNotActive`).
///
/// On a fixed-price ask the payment must equal the price (`InvalidPrice`);
/// the ask is removed and the sale is settled with the bidder at once.
///
/// On an auction the payment must exceed the leading amount
/// (`InsufficientFundsSend`); the outgoing leader is refunded, the bidder
/// becomes the leader at the amount paid, the bid is recorded, and the bid
/// subscribers are told of it.
pub open spec fn set_bid_model(
    s: StateView,
    env: EnvView,
    info: MessageInfoView,
    collection: Seq<char>,
    token_id: Seq<char>,
    royalty: RoyaltyQueryView,
) -> Outcome {
    let key = (collection, token_id);
    if !s.asks.contains_key(key) {
        Err(ContractErrorView::AskNotFound)
    } else {
        let ask = s.asks[key];
        match must_pay_spec(info.funds, NATIVE_DENOM@) {
            Err(e) => Err(ContractErrorView::BidPaymentError(e)),
            Ok(bid_price) => if ask.sale_type == SaleType::Auction && bid_price
                < s.params.min_price {
                Err(ContractErrorView::PriceTooSmall(bid_price))
            } else if ask.is_expired(env.now) {
                Err(ContractErrorView::AskExpired)
            } else if !ask.is_active {
                Err(ContractErrorView::AskNotActive)
            } else {
                let event = EventView::SetBid {
                    collection,
                    token_id,
                    bidder: info.sender,
                    bid_price,
                };
                match ask.sale_type {
                    SaleType::FixedPrice => if ask.price != bid_price {
                        Err(ContractErrorView::InvalidPrice)
                    } else {
                        match finalize_sale_model(
                            s.sale_hooks,
                            ask,
                            bid_price,
                            info.sender,
                            royalty,
                            ResponseView::empty(),
                        ) {
                            Err(e) => Err(e),
                            Ok(sold) => Ok(
                                (
                                    StateView { asks: s.asks.remove(key), ..s },
                                    sold.with_event(event),
                                ),
                            ),
                        }
                    },
                    SaleType::Auction => match (ask.max_bidder, ask.max_bid) {
                        (Some(leader), Some(leading)) => if bid_price <= leading {
                            Err(ContractErrorView::InsufficientFundsSend)
                        } else {
                            let raised = AskView {
                                max_bidder: Some(info.sender),
                                max_bid: Some(bid_price),
                                ..ask
                            };
                            let bid = BidView {
                                collection,
                                token_id,
                                bidder: info.sender,
                                price: bid_price,
                            };
                            Ok(
                                (
                                    StateView {
                                        asks: s.asks.insert(key, raised),
                                        bids: s.bids.insert(bid.key(), bid),
                                        ..s
                                    },
                                    ResponseView::empty().with_messages(
                                        leader_refund(ask, env.contract),
                                    ).with_messages(
                                        bid_hook_msgs(s.bid_hooks, bid, HookAction::Create),
                                    ).with_event(event),
                                ),
                            )
                        },
                        _ => Err(ContractErrorView::WrongAskInfo),
                    },
                }
            },
        }
    }
}

/// Closing a listing that has ended.
///
/// In order: the ask must exist (`AskNotFound`); no funds may be attached;
/// the caller must be the seller (`UnauthorizedOwner`); the ask must have
/// expired (`AuctionNotEnded`) and must be active (`AskNotActive`); it must
/// name a leader (`WrongAskInfo`). The ask is removed. Where somebody leads,
/// the sale is settled with the leader at the leading amount; where nobody
/// has bid, the item goes back to the seller and nothing is paid.
pub open spec fn accept_bid_model(
    s: StateView,
    env: EnvView,
    info: MessageInfoView,
    collection: Seq<char>,
    token_id: Seq<char>,
    bidder: Seq<char>,
    royalty: RoyaltyQueryView,
) -> Outcome {
    let key = (collection, token_id);
    if !s.asks.contains_key(key) {
        Err(ContractErrorView::AskNotFound)
    } else {
        let ask = s.asks[key];
        let next = StateView { asks: s.asks.remove(key), ..s };
        let event = EventView::AcceptBid { collection, token_id, bidder };
        if info.funds.len() != 0 {
            Err(ContractErrorView::BidPaymentError(PaymentErrorView::NonPayable))
        } else if ask.seller != info.sender {
            Err(ContractErrorView::UnauthorizedOwner)
        } else if !ask.is_expired(env.now) {
            Err(ContractErrorView::AuctionNotEnded)
        } else if !ask.is_active {
            Err(ContractErrorView::AskNotActive)
        } else {
            match ask.max_bidder {
                None => Err(ContractErrorView::WrongAskInfo),
                Some(leader) => if leader == env.contract {
                    Ok(
                        (
                            next,
                            ResponseView::empty().with_messages(
                                seq![transfer(collection, token_id, ask.seller)],
                            ).with_event(event),
                        ),
                    )
                } else {
                    match ask.max_bid {
                        None => Err(ContractErrorView::WrongAskInfo),
                        Some(leading) => match finalize_sale_model(
                            s.sale_hooks,
                            ask,
                            leading,
                            leader,
                            royalty,
                            ResponseView::empty(),
                        ) {
                            Err(e) => Err(e),
                            Ok(sold) => Ok((next, sold.with_event(event))),
                        },
                    }
                },
            }
        }
    }
}

/// Placing a standing bid on a collection.
///
/// In order: exactly one non-zero coin of the accepted denomination must be
/// attached; it must not be below the minimum price; the expiry must lie in
/// the window for bids. A standing bid that the bidder already has on the
/// collection is refunded and replaced; the collection-bid subscribers are
/// told of the new bid.
pub open spec fn set_collection_bid_model(
    s: StateView,
    env: EnvView,
    info: MessageInfoView,
    collection: Seq<char>,
    expires: u64,
) -> Outcome {
    let key = (collection, info.sender);
    match must_pay_spec(info.funds, NATIVE_DENOM@) {
        Err(e) => Err(ContractErrorView::BidPaymentError(e)),
        Ok(price) => if price < s.params.min_price {
            Err(ContractErrorView::PriceTooSmall(price))
        } else if !expiry_in_window(s.params.bid_expiry, env.now, expires) {
            Err(ContractErrorView::ExpiryRange(ExpiryRangeError::InvalidExpiration))
        } else {
            let refund = if s.collection_bids.contains_key(key) {
                seq![send(s.collection_bids[key].bidder, s.collection_bids[key].price)]
            } else {
                seq![]
            };
            let bid = CollectionBidView {
                collection,
                bidder: info.sender,
                price,
                expires_at: expires,
            };
            Ok(
                (
                    StateView { collection_bids: s.collection_bids.insert(key, bid), ..s },
                    ResponseView::empty().with_messages(refund).with_event(
                        EventView::SetCollectionBid {
                            collection,
                            bidder: info.sender,
                            bid_price: price,
                            expires,
                        },
                    ).with_messages(
                        collection_bid_hook_msgs(s.collection_bid_hooks, bid, HookAction::Create),
                    ),
                ),
            )
        },
    }
}

/// Withdrawing a standing bid on a collection.
///
/// In order: no funds may be attached; the caller must have a standing bid on
/// the collection (`BidNotFound`). The bid is removed and refunded, and the
/// collection-bid subscribers are told of the removal.
pub open spec fn remove_collection_bid_model(
    s: StateView,
    info: MessageInfoView,
    collection: Seq<char>,
) -> Outcome {
    let key = (collection, info.sender);
    if info.funds.len() != 0 {
        Err(ContractErrorView::BidPaymentError(PaymentErrorView::NonPayable))
    } else if !s.collection_bids.contains_key(key) {
        Err(ContractErrorView::BidNotFound)
    } else {
        let bid = s.collection_bids[key];
        Ok(
            (
                StateView { collection_bids: s.collection_bids.remove(key), ..s },
                ResponseView::empty().with_messages(seq![send(bid.bidder, bid.price)]).with_event(
                    EventView::RemoveCollectionBid { collection, bidder: info.sender },
                ).with_messages(
                    collection_bid_hook_msgs(s.collection_bid_hooks, bid, HookAction::Delete),
                ),
            ),
        )
    }
}

/// The state and the response that setting up with `msg` leads to: both
/// expiry windows must be proper ranges; the marketplace then starts without
/// records, with the sale subscriber that `msg` names, if any.
pub open spec fn instantiate_model(msg: InstantiateMsg) -> Outcome {
    if msg.ask_expiry.min > msg.ask_expiry.max || msg.bid_expiry.min > msg.bid_expiry.max {
        Err(ContractErrorView::ExpiryRange(ExpiryRangeError::InvalidExpirationRange))
    } else {
        Ok(
            (
                StateView {
                    params: SudoParamsView {
                        ask_expiry: msg.ask_expiry,
                        bid_expiry: msg.bid_expiry,
                        operators: strs_view(msg.operators@),
                        min_price: msg.min_price,
                        listing_fee: msg.listing_fee,
                    },
                    asks: Map::empty(),
                    bids: Map::empty(),
                    collection_bids: Map::empty(),
                    ask_hooks: Seq::empty(),
                    sale_hooks: match msg.sale_hook {
                        Some(hook) => seq![hook@],
                        None => Seq::empty(),
                    },
                    bid_hooks: Seq::empty(),
                    collection_bid_hooks: Seq::empty(),
                },
                ResponseView::empty(),
            ),
        )
    }
}

/// Where `msg` leads: what the action it names leads to.
pub open spec fn execute_model(
    s: StateView,
    env: EnvView,
    info: MessageInfoView,
    msg: ExecuteMsg,
    royalty: RoyaltyQueryView,
) -> Outcome {
    match msg {
        ExecuteMsg::ReceiveNft(rcv_msg) => set_ask_model(s, env, info, rcv_msg@),
        ExecuteMsg::RemoveAsk { collection, token_id } => remove_ask_model(
            s,
            env,
            info,
            collection@,
            token_id@,
        ),
        ExecuteMsg::SetBid { collection, token_id } => set_bid_model(
            s,
            env,
            info,
            collection@,
            token_id@,
            royalty,
        ),
        ExecuteMsg::AcceptBid { collection, token_id, bidder } => accept_bid_model(
            s,
            env,
            info,
            collection@,
            token_id@,
            bidder@,
            royalty,
        ),
        ExecuteMsg::UpdateAskPrice { collection, token_id, price } => update_ask_price_model(
            s,
            env,
            info,
            collection@,
            token_id@,
            price@,
        ),
        ExecuteMsg::SetCollectionBid { collection, expires } => set_collection_bid_model(
            s,
            env,
            info,
            collection@,
            expires.nanos,
        ),
        ExecuteMsg::RemoveCollectionBid { collection } => remove_collection_bid_model(
            s,
            info,
            collection@,
        ),
    }
}

/// The name under which the failure of a notification is reported.
pub open spec fn hook_failed(family: HookReply) -> Seq<char> {
    match family {
        HookReply::Ask => "ask-hook-failed"@,
        HookReply::Sale => "sale-hook-failed"@,
        HookReply::Bid => "bid-hook-failed"@,
        HookReply::CollectionBid => "collection-bid-hook-failed"@,
    }
}

/// What the host's report on a notification leads to: the failure of a
/// notification is put on record under the name of its event family, and
/// nothing else happens. A report under an unknown tag, or one that carries
/// no failure, is refused.
pub open spec fn reply_model(msg: Reply) -> Result<ResponseView, ContractErrorView> {
    if !(1 <= msg.id <= 4) {
        Err(ContractErrorView::Std("invalid reply type"@))
    } else {
        let family = if msg.id == 1 {
            HookReply::Ask
        } else if msg.id == 2 {
            HookReply::Sale
        } else if msg.id == 3 {
            HookReply::Bid
        } else {
            HookReply::CollectionBid
        };
        match msg.result {
            Ok(()) => Err(ContractErrorView::Std("reply without error"@)),
            Err(error) => Ok(
                ResponseView::empty().with_attribute("action"@, hook_failed(family)).with_attribute(
                    "error"@,
                    error@,
                ),
            ),
        }
    }
}

} // verus!
