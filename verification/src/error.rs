//! The failures an action can end in.

use vstd::prelude::*;

verus! {

/// Why a payment attached to an action was not accepted.
#[derive(Debug, PartialEq, Eq)]
pub enum PaymentError {
    /// One coin was sent, but not of the denomination asked for.
    MissingDenom(String),
    /// A coin of another denomination was sent.
    ExtraDenom(String),
    /// More than one coin was sent.
    MultipleDenoms,
    /// Nothing, or a zero amount, was sent where a payment is required.
    NoFunds,
    /// Funds were sent with an action that takes none.
    NonPayable,
}

pub enum PaymentErrorView {
    MissingDenom(Seq<char>),
    ExtraDenom(Seq<char>),
    MultipleDenoms,
    NoFunds,
    NonPayable,
}

impl View for PaymentError {
    type V = PaymentErrorView;

    open spec fn view(&self) -> PaymentErrorView {
        match self {
            PaymentError::MissingDenom(d) => PaymentErrorView::MissingDenom(d@),
            PaymentError::ExtraDenom(d) => PaymentErrorView::ExtraDenom(d@),
            PaymentError::MultipleDenoms => PaymentErrorView::MultipleDenoms,
            PaymentError::NoFunds => PaymentErrorView::NoFunds,
            PaymentError::NonPayable => PaymentErrorView::NonPayable,
        }
    }
}

/// Why a hook registry refused a change.
#[derive(Clone, Copy, Debug, PartialEq, Eq)]
pub enum HookError {
    HookAlreadyRegistered,
    HookNotRegistered,
}

/// Why an expiry, or a range of expiries, was refused.
#[derive(Clone, Copy, Debug, PartialEq, Eq)]
pub enum ExpiryRangeError {
    /// The proposed expiry lies outside the allowed window.
    InvalidExpiration,
    /// The window's lower bound exceeds its upper bound.
    InvalidExpirationRange,
}

/// Every failure of the marketplace. An action that fails leaves the state
/// as it found it.
#[derive(Debug, PartialEq, Eq)]
pub enum ContractError {
    /// A failure reported by the host or by a collaborating contract.
    Std(String),
    UnauthorizedOwner,
    UnauthorizedOperator,
    InvalidPrice,
    AskExpired,
    AskNotActive,
    AskNotFound,
    BidNotFound,
    PriceTooSmall(u128),
    IdMismatch,
    InvalidListingFee(u128),
    WrongAskInfo,
    InsufficientFundsSend,
    AuctionNotEnded,
    BidPaymentError(PaymentError),
    Hook(HookError),
    ExpiryRange(ExpiryRangeError),
}

pub enum ContractErrorView {
    Std(Seq<char>),
    UnauthorizedOwner,
    UnauthorizedOperator,
    InvalidPrice,
    AskExpired,
    AskNotActive,
    AskNotFound,
    BidNotFound,
    PriceTooSmall(u128),
    IdMismatch,
    InvalidListingFee(u128),
    WrongAskInfo,
    InsufficientFundsSend,
    AuctionNotEnded,
    BidPaymentError(PaymentErrorView),
    Hook(HookError),
    ExpiryRange(ExpiryRangeError),
}

impl View for ContractError {
    type V = ContractErrorView;

    open spec fn view(&self) -> ContractErrorView {
        match self {
            ContractError::Std(m) => ContractErrorView::Std(m@),
            ContractError::UnauthorizedOwner => ContractErrorView::UnauthorizedOwner,
            ContractError::UnauthorizedOperator => ContractErrorView::UnauthorizedOperator,
            ContractError::InvalidPrice => ContractErrorView::InvalidPrice,
            ContractError::AskExpired => ContractErrorView::AskExpired,
            ContractError::AskNotActive => ContractErrorView::AskNotActive,
            ContractError::AskNotFound => ContractErrorView::AskNotFound,
            ContractError::BidNotFound => ContractErrorView::BidNotFound,
            ContractError::PriceTooSmall(p) => ContractErrorView::PriceTooSmall(*p),
            ContractError::IdMismatch => ContractErrorView::IdMismatch,
            ContractError::InvalidListingFee(f) => ContractErrorView::InvalidListingFee(*f),
            ContractError::WrongAskInfo => ContractErrorView::WrongAskInfo,
            ContractError::InsufficientFundsSend => ContractErrorView::InsufficientFundsSend,
            ContractError::AuctionNotEnded => ContractErrorView::AuctionNotEnded,
            ContractError::BidPaymentError(e) => ContractErrorView::BidPaymentError(e@),
            ContractError::Hook(e) => ContractErrorView::Hook(*e),
            ContractError::ExpiryRange(e) => ContractErrorView::ExpiryRange(*e),
        }
    }
}

} // verus!
