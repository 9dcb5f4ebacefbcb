//! Settlement: who is paid what when an item is sold, and the effects that
//! carry the sale out.
//!
//! The effects of a sale come in a fixed order: the royalty payment, if the
//! collection has royalties; the payment to the seller's payee; the transfer
//! of the item to the buyer; the notifications of the sale.

use vstd::prelude::*;
use vstd::string::*;
use crate::error::{ContractError, ContractErrorView};
use crate::hooks::{prepare_sale_hook, sale_hook_msgs, Hooks};
use crate::response::{
    fire_and_forget, Event, EventView, Msg, MsgView, Response, ResponseView, SubMsgView,
};
use crate::state::{Ask, AskView};
use crate::types::{coin_native, native_coin};

verus! {

/// The number of atomic units in one whole: rates have 18 decimal places.
pub const DECIMAL_FRACTIONAL: u128 = 1_000_000_000_000_000_000;

/// A fixed-point number with 18 decimal places, held as its count of atomic
/// units.
#[derive(Clone, Copy, Debug, PartialEq, Eq)]
pub struct Decimal {
    pub atomics: u128,
}

/// Who receives royalties on the sales of a collection, and at what rate.
#[derive(Debug, PartialEq, Eq)]
pub struct RoyaltyInfo {
    pub address: String,
    pub royalty_rate: Decimal,
}

pub struct RoyaltyInfoView {
    pub address: Seq<char>,
    pub royalty_rate: Decimal,
}

impl View for RoyaltyInfo {
    type V = RoyaltyInfoView;

    open spec fn view(&self) -> RoyaltyInfoView {
        RoyaltyInfoView { address: self.address@, royalty_rate: self.royalty_rate }
    }
}

/// What came of asking a collection for its royalty configuration.
#[derive(Debug, PartialEq, Eq)]
pub enum RoyaltyQuery {
    /// The collection answered: it has royalties, or it has none.
    Info(Option<RoyaltyInfo>),
    /// The collection cannot be asked about royalties at all.
    Unsupported,
    /// The collection could not be reached, or answered with a failure.
    Failed(String),
}

pub enum RoyaltyQueryView {
    Info(Option<RoyaltyInfoView>),
    Unsupported,
    Failed(Seq<char>),
}

impl View for RoyaltyQuery {
    type V = RoyaltyQueryView;

    open spec fn view(&self) -> RoyaltyQueryView {
        match self {
            RoyaltyQuery::Info(Some(info)) => RoyaltyQueryView::Info(Some(info@)),
            RoyaltyQuery::Info(None) => RoyaltyQueryView::Info(None),
            RoyaltyQuery::Unsupported => RoyaltyQueryView::Unsupported,
            RoyaltyQuery::Failed(m) => RoyaltyQueryView::Failed(m@),
        }
    }
}

/// The royalty on `payment` at `rate`: the product, rounded down.
pub open spec fn royalty_share(payment: u128, rate: Decimal) -> int {
    (payment * rate.atomics) / (DECIMAL_FRACTIONAL as int)
}

/// The payment of `amount` to `to_address`.
pub open spec fn send(to_address: Seq<char>, amount: u128) -> SubMsgView {
    fire_and_forget(MsgView::Send { to_address, amount: native_coin(amount) })
}

/// The instruction to `collection` to hand `token_id` to `recipient`.
pub open spec fn transfer(collection: Seq<char>, token_id: Seq<char>, recipient: Seq<char>)
    -> SubMsgView {
    fire_and_forget(MsgView::TransferNft { contract_addr: collection, token_id, recipient })
}

/// The message of the failure when the royalty would exceed the payment.
pub open spec fn fees_exceed_payment() -> Seq<char> {
    "Fees exceed payment"@
}

/// What `payout` adds to `res`, or the failure it ends in.
///
/// With royalties, the royalty recipient is paid the royalty share and the
/// payee the rest, which together make up the payment exactly, unless the
/// share exceeds the payment. Without royalties the payee is paid in full.
/// A collection that could not be asked fails the payout.
pub open spec fn payout_model(
    collection: Seq<char>,
    payment: u128,
    payee: Seq<char>,
    royalty: RoyaltyQueryView,
    res: ResponseView,
) -> Result<ResponseView, ContractErrorView> {
    match royalty {
        RoyaltyQueryView::Failed(m) => Err(ContractErrorView::Std(m)),
        RoyaltyQueryView::Info(Some(info)) => {
            let share = royalty_share(payment, info.royalty_rate);
            if share > payment {
                Err(ContractErrorView::Std(fees_exceed_payment()))
            } else {
                Ok(
                    res.with_messages(
                        seq![
                            send(info.address, share as u128),
                            send(payee, (payment - share) as u128),
                        ],
                    ).with_event(
                        EventView::RoyaltyPayout {
                            collection,
                            amount: native_coin(share as u128),
                            recipient: info.address,
                        },
                    ),
                )
            }
        },
        _ => Ok(res.with_messages(seq![send(payee, payment)])),
    }
}

/// What `finalize_sale` adds to `res`, or the failure it ends in: the payout,
/// then the transfer of the item to the buyer, then the notifications of the
/// sale, and the record of the sale.
pub open spec fn finalize_sale_model(
    sale_hooks: Seq<Seq<char>>,
    ask: AskView,
    price: u128,
    buyer: Seq<char>,
    royalty: RoyaltyQueryView,
    res: ResponseView,
) -> Result<ResponseView, ContractErrorView> {
    match payout_model(ask.collection, price, ask.payee(), royalty, res) {
        Err(e) => Err(e),
        Ok(paid) => Ok(
            paid.with_messages(seq![transfer(ask.collection, ask.token_id, buyer)]).with_messages(
                sale_hook_msgs(sale_hooks, ask, buyer),
            ).with_event(
                EventView::FinalizeSale {
                    collection: ask.collection,
                    token_id: ask.token_id,
                    seller: ask.seller,
                    buyer,
                    sale_price: price,
                },
            ),
        ),
    }
}

/// Multiplies an amount by a rate with `cosmwasm_std`'s `Uint128 * Decimal`.
/// By its source that is zero when either factor is zero, and otherwise the
/// full product divided by 10^18 and rounded down; it panics when the result
/// does not fit in 128 bits, so such factors are left out.
#[verifier::external_body]
pub(crate) fn mul_decimal(payment: u128, rate: Decimal) -> (r: u128)
    requires
        royalty_share(payment, rate) <= u128::MAX,
    ensures
        r == royalty_share(payment, rate),
{
    let rate = cosmwasm_std::Decimal::new(cosmwasm_std::Uint128::new(rate.atomics));
    (cosmwasm_std::Uint128::new(payment) * rate).u128()
}

/// A rate of at most one takes at most the whole payment.
pub proof fn lemma_share_within(payment: u128, rate: Decimal)
    requires
        rate.atomics <= DECIMAL_FRACTIONAL,
    ensures
        0 <= royalty_share(payment, rate) <= payment,
{
    let p = payment as int;
    let a = rate.atomics as int;
    let d = DECIMAL_FRACTIONAL as int;
    assert(0 <= (p * a) / d <= p) by (nonlinear_arith)
        requires
            0 <= p,
            0 <= a <= d,
            d > 0,
    ;
}

/// A rate above one takes more than the payment exactly when the payment
/// times the excess of the rate over one reaches a whole unit.
proof fn lemma_share_above(payment: u128, rate: Decimal)
    requires
        rate.atomics > DECIMAL_FRACTIONAL,
    ensures
        payment * (rate.atomics - DECIMAL_FRACTIONAL) >= DECIMAL_FRACTIONAL ==> royalty_share(
            payment,
            rate,
        ) > payment,
        payment * (rate.atomics - DECIMAL_FRACTIONAL) < DECIMAL_FRACTIONAL ==> royalty_share(
            payment,
            rate,
        ) == payment,
{
    let p = payment as int;
    let a = rate.atomics as int;
    let d = DECIMAL_FRACTIONAL as int;
    let x = p * (a - d);
    assert(p * a == p * d + x) by (nonlinear_arith)
        requires
            x == p * (a - d),
    ;
    assert(x >= d ==> (p * d + x) / d > p) by (nonlinear_arith)
        requires
            d > 0,
            p >= 0,
    ;
    assert(0 <= x < d ==> (p * d + x) / d == p) by (nonlinear_arith)
        requires
            d > 0,
            p >= 0,
    ;
    assert(x >= 0) by (nonlinear_arith)
        requires
            x == p * (a - d),
            p >= 0,
            a - d >= 0,
    ;
}

/// The royalty on `payment` at `rate`, unless it exceeds the payment.
fn checked_share(payment: u128, rate: Decimal) -> (r: Option<u128>)
    ensures
        royalty_share(payment, rate) <= payment ==> r == Some(
            royalty_share(payment, rate) as u128,
        ),
        royalty_share(payment, rate) > payment ==> r.is_none(),
{
    if rate.atomics <= DECIMAL_FRACTIONAL {
        proof {
            lemma_share_within(payment, rate);
        }
        Some(mul_decimal(payment, rate))
    } else {
        proof {
            lemma_share_above(payment, rate);
        }
        match payment.checked_mul(rate.atomics - DECIMAL_FRACTIONAL) {
            Some(excess) => {
                if excess >= DECIMAL_FRACTIONAL {
                    None
                } else {
                    Some(mul_decimal(payment, rate))
                }
            },
            None => None,
        }
    }
}

/// Queues the payments for a sale at `payment` in `collection`: the royalty,
/// if the collection has one, and the rest to `payment_recipient`. On failure
/// `res` is left as it was.
pub fn payout(
    collection: &String,
    payment: u128,
    payment_recipient: &String,
    royalty: &RoyaltyQuery,
    res: &mut Response,
) -> (r: Result<(), ContractError>)
    ensures
        match payout_model(collection@, payment, payment_recipient@, royalty@, old(res)@) {
            Ok(paid) => r.is_ok() && final(res)@ == paid,
            Err(e) => r matches Err(err) && err@ == e && final(res)@ == old(res)@,
        },
{
    match royalty {
        RoyaltyQuery::Failed(m) => Err(ContractError::Std(m.clone())),
        RoyaltyQuery::Info(Some(info)) => {
            match checked_share(payment, info.royalty_rate) {
                None => Err(ContractError::Std(String::from_str("Fees exceed payment"))),
                Some(share) => {
                    res.add_message(
                        Msg::Send { to_address: info.address.clone(), amount: coin_native(share) },
                    );
                    res.add_event(
                        Event::RoyaltyPayout {
                            collection: collection.clone(),
                            amount: coin_native(share),
                            recipient: info.address.clone(),
                        },
                    );
                    res.add_message(
                        Msg::Send {
                            to_address: payment_recipient.clone(),
                            amount: coin_native(payment - share),
                        },
                    );
                    proof {
                        if let Ok(paid) = payout_model(
                            collection@,
                            payment,
                            payment_recipient@,
                            royalty@,
                            old(res)@,
                        ) {
                            assert(res@.messages =~= paid.messages);
                            assert(res@.events =~= paid.events);
                        }
                    }
                    Ok(())
                },
            }
        },
        _ => {
            res.add_message(
                Msg::Send { to_address: payment_recipient.clone(), amount: coin_native(payment) },
            );
            Ok(())
        },
    }
}

/// Settles the sale of `ask` to `buyer` at `price`: queues the payout, the
/// transfer of the item and the notifications of the sale, in that order, and
/// records the sale. On failure `res` is left as it was.
pub fn finalize_sale(
    sale_hooks: &Hooks,
    ask: &Ask,
    price: u128,
    buyer: &String,
    royalty: &RoyaltyQuery,
    res: &mut Response,
) -> (r: Result<(), ContractError>)
    ensures
        match finalize_sale_model(sale_hooks@, ask@, price, buyer@, royalty@, old(res)@) {
            Ok(done) => r.is_ok() && final(res)@ == done,
            Err(e) => r matches Err(err) && err@ == e && final(res)@ == old(res)@,
        },
{
    let payee = match &ask.funds_recipient {
        Some(recipient) => recipient.clone(),
        None => ask.seller.clone(),
    };
    match payout(&ask.collection, price, &payee, royalty, res) {
        Err(e) => Err(e),
        Ok(()) => {
            res.add_message(
                Msg::TransferNft {
                    contract_addr: ask.collection.clone(),
                    token_id: ask.token_id.clone(),
                    recipient: buyer.clone(),
                },
            );
            res.add_submessages(prepare_sale_hook(sale_hooks, ask, buyer));
            res.add_event(
                Event::FinalizeSale {
                    collection: ask.collection.clone(),
                    token_id: ask.token_id.clone(),
                    seller: ask.seller.clone(),
                    buyer: buyer.clone(),
                    sale_price: price,
                },
            );
            Ok(())
        },
    }
}

} // verus!
