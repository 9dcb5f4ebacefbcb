//! What an attached payment amounts to, and whether a price is acceptable.
//!
//! The three payment checks are the ones of `cw_utils`; they are called here,
//! not rewritten, and their contracts restate that crate's source.

use vstd::prelude::*;
use crate::error::{ContractError, ContractErrorView, PaymentError, PaymentErrorView};
use crate::state::SudoParams;
use crate::types::{native_denom, Coin, CoinView, MessageInfo, NATIVE_DENOM};

verus! {

/// What `must_pay` makes of `funds`: the amount of the single coin sent, which
/// must be non-zero and of `denom`.
pub open spec fn must_pay_spec(funds: Seq<CoinView>, denom: Seq<char>) -> Result<
    u128,
    PaymentErrorView,
> {
    if funds.len() == 0 {
        Err(PaymentErrorView::NoFunds)
    } else if funds.len() > 1 {
        Err(PaymentErrorView::MultipleDenoms)
    } else if funds[0].amount == 0 {
        Err(PaymentErrorView::NoFunds)
    } else if funds[0].denom != denom {
        Err(PaymentErrorView::MissingDenom(denom))
    } else {
        Ok(funds[0].amount)
    }
}

/// Some coin among `funds` is not of `denom`.
pub open spec fn has_other_denom(funds: Seq<CoinView>, denom: Seq<char>) -> bool {
    exists|i: int| 0 <= i < funds.len() && #[trigger] funds[i].denom != denom
}

/// `i` is the place of the first coin among `funds` that is not of `denom`.
pub open spec fn first_other_denom(funds: Seq<CoinView>, denom: Seq<char>, i: int) -> bool {
    &&& 0 <= i < funds.len()
    &&& funds[i].denom != denom
    &&& forall|j: int| 0 <= j < i ==> (#[trigger] funds[j]).denom == denom
}

/// The place of the first coin among `funds` that is not of `denom`.
pub open spec fn first_other(funds: Seq<CoinView>, denom: Seq<char>) -> int {
    choose|i: int| first_other_denom(funds, denom, i)
}

/// What `may_pay` makes of `funds`, on the inputs on which it returns:
/// nothing sent counts as zero, a single coin of `denom` as its amount, and
/// anything else is refused with the first foreign denomination.
pub open spec fn may_pay_spec(funds: Seq<CoinView>, denom: Seq<char>) -> Result<
    u128,
    PaymentErrorView,
> {
    if funds.len() == 0 {
        Ok(0)
    } else if funds.len() == 1 && funds[0].denom == denom {
        Ok(funds[0].amount)
    } else {
        Err(PaymentErrorView::ExtraDenom(funds[first_other(funds, denom)].denom))
    }
}

/// What was paid towards a fee that may be zero: as `may_pay` has it, and
/// several coins that are all of the accepted denomination are refused.
pub open spec fn fee_paid_spec(funds: Seq<CoinView>) -> Result<u128, PaymentErrorView> {
    if funds.len() >= 2 && !has_other_denom(funds, NATIVE_DENOM@) {
        Err(PaymentErrorView::MultipleDenoms)
    } else {
        may_pay_spec(funds, NATIVE_DENOM@)
    }
}

/// Whether a price is acceptable: it must be a non-zero amount of the
/// accepted denomination, and not below the minimum price. Any other price
/// is refused as `InvalidPrice`.
pub open spec fn price_model(min_price: u128, price: CoinView) -> Result<(), ContractErrorView> {
    if price.amount == 0 || price.denom != NATIVE_DENOM@ || price.amount < min_price {
        Err(ContractErrorView::InvalidPrice)
    } else {
        Ok(())
    }
}

/// View of the outcome of a payment check.
pub open spec fn paid_view(r: Result<u128, PaymentError>) -> Result<u128, PaymentErrorView> {
    match r {
        Ok(a) => Ok(a),
        Err(e) => Err(e@),
    }
}

/// Calls `cw_utils::must_pay` on the caller's funds. By that function's
/// source the result is `must_pay_spec`: exactly one coin, non-zero, of the
/// denomination asked for.
#[verifier::external_body]
pub(crate) fn must_pay(info: &MessageInfo, denom: &str) -> (r: Result<u128, PaymentError>)
    ensures
        paid_view(r) == must_pay_spec(info@.funds, denom@),
{
    let funds = info.funds.iter().map(|c| cosmwasm_std::Coin::new(c.amount, c.denom.clone()));
    let sender = cosmwasm_std::Addr::unchecked(info.sender.clone());
    let outside = cosmwasm_std::MessageInfo { sender, funds: funds.collect() };
    match cw_utils::must_pay(&outside, denom) {
        Ok(amount) => Ok(amount.u128()),
        Err(cw_utils::PaymentError::MissingDenom(d)) => Err(PaymentError::MissingDenom(d)),
        Err(cw_utils::PaymentError::ExtraDenom(d)) => Err(PaymentError::ExtraDenom(d)),
        Err(cw_utils::PaymentError::MultipleDenoms {}) => Err(PaymentError::MultipleDenoms),
        Err(cw_utils::PaymentError::NoFunds {}) => Err(PaymentError::NoFunds),
        Err(cw_utils::PaymentError::NonPayable {}) => Err(PaymentError::NonPayable),
    }
}

/// Calls `cw_utils::may_pay` on the caller's funds. That function searches
/// for a coin of another denomination whenever the funds are not empty and
/// not a single coin of `denom`, and panics when there is none: such funds
/// are left out. On the rest the result is `may_pay_spec`: zero for no funds,
/// the amount of a single coin of `denom`, and else the refusal of the first
/// coin that is not of `denom`.
#[verifier::external_body]
pub(crate) fn may_pay(info: &MessageInfo, denom: &str) -> (r: Result<u128, PaymentError>)
    requires
        info@.funds.len() <= 1 || has_other_denom(info@.funds, denom@),
    ensures
        paid_view(r) == may_pay_spec(info@.funds, denom@),
{
    let funds = info.funds.iter().map(|c| cosmwasm_std::Coin::new(c.amount, c.denom.clone()));
    let sender = cosmwasm_std::Addr::unchecked(info.sender.clone());
    let outside = cosmwasm_std::MessageInfo { sender, funds: funds.collect() };
    match cw_utils::may_pay(&outside, denom) {
        Ok(amount) => Ok(amount.u128()),
        Err(cw_utils::PaymentError::MissingDenom(d)) => Err(PaymentError::MissingDenom(d)),
        Err(cw_utils::PaymentError::ExtraDenom(d)) => Err(PaymentError::ExtraDenom(d)),
        Err(cw_utils::PaymentError::MultipleDenoms {}) => Err(PaymentError::MultipleDenoms),
        Err(cw_utils::PaymentError::NoFunds {}) => Err(PaymentError::NoFunds),
        Err(cw_utils::PaymentError::NonPayable {}) => Err(PaymentError::NonPayable),
    }
}

/// Calls `cw_utils::nonpayable` on the caller's funds: by its source, it
/// accepts exactly the empty funds.
#[verifier::external_body]
pub(crate) fn nonpayable(info: &MessageInfo) -> (r: bool)
    ensures
        r == (info@.funds.len() == 0),
{
    let funds = info.funds.iter().map(|c| cosmwasm_std::Coin::new(c.amount, c.denom.clone()));
    let sender = cosmwasm_std::Addr::unchecked(info.sender.clone());
    let outside = cosmwasm_std::MessageInfo { sender, funds: funds.collect() };
    cw_utils::nonpayable(&outside).is_ok()
}

/// What the caller paid towards a fee that may be zero.
pub fn fee_paid(info: &MessageInfo) -> (r: Result<u128, PaymentError>)
    ensures
        paid_view(r) == fee_paid_spec(info@.funds),
{
    let native = native_denom();
    let mut i: usize = 0;
    let mut other = false;
    while i < info.funds.len() && !other
        invariant
            i <= info.funds.len(),
            native@ == NATIVE_DENOM@,
            !other ==> forall|j: int| 0 <= j < i ==> (#[trigger] info@.funds[j]).denom == native@,
            other ==> has_other_denom(info@.funds, native@),
        decreases info.funds.len() - i + (if other { 0int } else { 1int }),
    {
        if info.funds[i].denom != native {
            assert(info@.funds[i as int].denom != native@);
            other = true;
        } else {
            i = i + 1;
        }
    }
    if info.funds.len() >= 2 && !other {
        Err(PaymentError::MultipleDenoms)
    } else {
        may_pay(info, NATIVE_DENOM)
    }
}

/// Accepts `price` when it is a non-zero amount of the accepted denomination
/// and not below the minimum price.
pub fn price_validate(params: &SudoParams, price: &Coin) -> (r: Result<(), ContractError>)
    ensures
        match price_model(params.min_price, price@) {
            Ok(()) => r.is_ok(),
            Err(e) => r matches Err(err) && err@ == e,
        },
{
    let native = native_denom();
    if price.amount == 0 || price.denom != native || price.amount < params.min_price {
        return Err(ContractError::InvalidPrice);
    }
    Ok(())
}

} // verus!
