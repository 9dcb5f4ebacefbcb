//! The shapes of what comes in to a sale, of what it answers, of the effects
//! it hands back and of the failures it ends in.

use vstd::prelude::*;
use crate::response::{attributes_view, Attribute, AttributeView, ReplyOn};
use crate::sale::expiration::Expiration;
use crate::settlement::{RoyaltyInfo, RoyaltyInfoView};
use crate::types::{coins_view, Coin, CoinView};

verus! {

/// What a collection says of itself.
#[derive(Debug, PartialEq, Eq)]
pub struct CollectionInfo {
    pub contract_uri: String,
    pub creator: String,
    pub royalties: Option<RoyaltyInfo>,
}

pub struct CollectionInfoView {
    pub contract_uri: Seq<char>,
    pub creator: Seq<char>,
    pub royalties: Option<RoyaltyInfoView>,
}

impl View for CollectionInfo {
    type V = CollectionInfoView;

    open spec fn view(&self) -> CollectionInfoView {
        CollectionInfoView {
            contract_uri: self.contract_uri@,
            creator: self.creator@,
            royalties: match self.royalties {
                Some(r) => Some(r@),
                None => None,
            },
        }
    }
}

/// What sets a collection contract up.
#[derive(Debug, PartialEq, Eq)]
pub struct Sg721InstantiateMsg {
    pub name: String,
    pub symbol: String,
    pub minter: String,
    pub collection_info: CollectionInfo,
}

pub struct Sg721InstantiateMsgView {
    pub name: Seq<char>,
    pub symbol: Seq<char>,
    pub minter: Seq<char>,
    pub collection_info: CollectionInfoView,
}

impl View for Sg721InstantiateMsg {
    type V = Sg721InstantiateMsgView;

    open spec fn view(&self) -> Sg721InstantiateMsgView {
        Sg721InstantiateMsgView {
            name: self.name@,
            symbol: self.symbol@,
            minter: self.minter@,
            collection_info: self.collection_info@,
        }
    }
}

/// What sets a sale up.
#[derive(Debug, PartialEq, Eq)]
pub struct InstantiateMsg {
    pub unit_price: Coin,
    pub num_tokens: u64,
    pub token_uris: Vec<String>,
    pub whitelist_expiration: Option<Expiration>,
    pub whitelist_addresses: Option<Vec<String>>,
    pub start_time: Option<Expiration>,
    pub per_address_limit: Option<u64>,
    pub sg721_code_id: u64,
    pub sg721_instantiate_msg: Sg721InstantiateMsg,
}

/// Addresses to put on the whitelist and to take off it.
#[derive(Debug, PartialEq, Eq)]
pub struct UpdateWhitelistMsg {
    pub add_addresses: Option<Vec<String>>,
    pub remove_addresses: Option<Vec<String>>,
}

/// The actions of a sale.
#[derive(Debug, PartialEq, Eq)]
pub enum ExecuteMsg {
    /// Buy the next item; the payment is attached.
    Mint {},
    UpdateWhitelist(UpdateWhitelistMsg),
    WhitelistExpiration(Expiration),
    UpdateStartTime(Expiration),
    UpdatePerAddressLimit { per_address_limit: u64 },
}

/// The questions a sale answers.
#[derive(Clone, Copy, Debug, PartialEq, Eq)]
pub enum QueryMsg {
    GetConfig {},
    GetWhitelistAddresses {},
    GetWhitelistExpiration {},
    GetStartTime {},
}

#[derive(Debug, PartialEq, Eq)]
pub struct ConfigResponse {
    pub admin: String,
    pub sg721_address: String,
    pub sg721_code_id: u64,
    pub num_tokens: u64,
    pub unit_price: Coin,
    pub unused_token_id: u64,
    pub per_address_limit: Option<u64>,
}

pub struct ConfigResponseView {
    pub admin: Seq<char>,
    pub sg721_address: Seq<char>,
    pub sg721_code_id: u64,
    pub num_tokens: u64,
    pub unit_price: CoinView,
    pub unused_token_id: u64,
    pub per_address_limit: Option<u64>,
}

impl View for ConfigResponse {
    type V = ConfigResponseView;

    open spec fn view(&self) -> ConfigResponseView {
        ConfigResponseView {
            admin: self.admin@,
            sg721_address: self.sg721_address@,
            sg721_code_id: self.sg721_code_id,
            num_tokens: self.num_tokens,
            unit_price: self.unit_price@,
            unused_token_id: self.unused_token_id,
            per_address_limit: self.per_address_limit,
        }
    }
}

#[derive(Debug, PartialEq, Eq)]
pub struct WhitelistAddressesResponse {
    pub addresses: Vec<String>,
}

#[derive(Debug, PartialEq, Eq)]
pub struct WhitelistExpirationResponse {
    pub expiration_time: String,
}

#[derive(Debug, PartialEq, Eq)]
pub struct StartTimeResponse {
    pub start_time: String,
}

/// The host's report on the setting up of the collection contract.
#[derive(Debug, PartialEq, Eq)]
pub struct Reply {
    /// The tag the effect was sent under.
    pub id: u64,
    /// How the effect ended: with the data it returned, if any, or with the
    /// failure's message.
    pub result: Result<Option<Vec<u8>>, String>,
}

/// One effect of a sale for the host to carry out.
#[derive(Debug, PartialEq, Eq)]
pub enum SaleMsg {
    /// Set up the collection contract from the code `code_id`.
    InstantiateCollection { code_id: u64, msg: Sg721InstantiateMsg, label: String },
    /// Have the collection `contract_addr` mint item `token_id` to `owner`.
    Mint { contract_addr: String, token_id: u64, owner: String, token_uri: String },
    /// Pay `amount` to `to_address`.
    Send { to_address: String, amount: Vec<Coin> },
}

pub enum SaleMsgView {
    InstantiateCollection { code_id: u64, msg: Sg721InstantiateMsgView, label: Seq<char> },
    Mint { contract_addr: Seq<char>, token_id: u64, owner: Seq<char>, token_uri: Seq<char> },
    Send { to_address: Seq<char>, amount: Seq<CoinView> },
}

impl View for SaleMsg {
    type V = SaleMsgView;

    open spec fn view(&self) -> SaleMsgView {
        match self {
            SaleMsg::InstantiateCollection { code_id, msg, label } => {
                SaleMsgView::InstantiateCollection { code_id: *code_id, msg: msg@, label: label@ }
            },
            SaleMsg::Mint { contract_addr, token_id, owner, token_uri } => SaleMsgView::Mint {
                contract_addr: contract_addr@,
                token_id: *token_id,
                owner: owner@,
                token_uri: token_uri@,
            },
            SaleMsg::Send { to_address, amount } => SaleMsgView::Send {
                to_address: to_address@,
                amount: coins_view(amount@),
            },
        }
    }
}

/// An effect of a sale together with how the host reports on it.
#[derive(Debug, PartialEq, Eq)]
pub struct SaleSubMsg {
    pub id: u64,
    pub msg: SaleMsg,
    pub reply_on: ReplyOn,
}

pub struct SaleSubMsgView {
    pub id: u64,
    pub msg: SaleMsgView,
    pub reply_on: ReplyOn,
}

impl View for SaleSubMsg {
    type V = SaleSubMsgView;

    open spec fn view(&self) -> SaleSubMsgView {
        SaleSubMsgView { id: self.id, msg: self.msg@, reply_on: self.reply_on }
    }
}

/// An effect on which the host never reports back.
pub open spec fn plain(msg: SaleMsgView) -> SaleSubMsgView {
    SaleSubMsgView { id: 0, msg, reply_on: ReplyOn::Never }
}

/// View of a list of effects.
pub open spec fn sale_msgs_view(v: Seq<SaleSubMsg>) -> Seq<SaleSubMsgView> {
    v.map_values(|m: SaleSubMsg| m@)
}

/// The outcome of an action of a sale that succeeded.
#[derive(Debug, PartialEq, Eq)]
pub struct SaleResponse {
    /// The effects, in the order in which the host carries them out.
    pub messages: Vec<SaleSubMsg>,
    pub attributes: Vec<Attribute>,
}

pub struct SaleResponseView {
    pub messages: Seq<SaleSubMsgView>,
    pub attributes: Seq<AttributeView>,
}

impl SaleResponseView {
    /// The outcome without effects and without records.
    pub open spec fn empty() -> SaleResponseView {
        SaleResponseView { messages: seq![], attributes: seq![] }
    }

    /// The outcome without effects, recorded under `method`.
    pub open spec fn of_method(method: Seq<char>) -> SaleResponseView {
        SaleResponseView {
            messages: seq![],
            attributes: seq![AttributeView { key: "method"@, value: method }],
        }
    }
}

impl View for SaleResponse {
    type V = SaleResponseView;

    open spec fn view(&self) -> SaleResponseView {
        SaleResponseView {
            messages: sale_msgs_view(self.messages@),
            attributes: attributes_view(self.attributes@),
        }
    }
}

impl SaleResponse {
    /// The outcome without effects and without records.
    pub fn new() -> (r: Self)
        ensures
            r@ == SaleResponseView::empty(),
    {
        let r = SaleResponse { messages: Vec::new(), attributes: Vec::new() };
        assert(r@.messages =~= seq![]);
        assert(r@.attributes =~= seq![]);
        r
    }

    /// The outcome without effects, recorded under `method`.
    pub fn of_method(method: &str) -> (r: Self)
        ensures
            r@ == SaleResponseView::of_method(method@),
    {
        let mut attributes: Vec<Attribute> = Vec::new();
        attributes.push(
            Attribute { key: String::from_str("method"), value: String::from_str(method) },
        );
        let r = SaleResponse { messages: Vec::new(), attributes };
        assert(r@.messages =~= seq![]);
        assert(r@.attributes =~= seq![AttributeView { key: "method"@, value: method@ }]);
        r
    }
}

/// The failures of a sale.
#[derive(Debug, PartialEq, Eq)]
pub enum SaleError {
    /// A failure reported by the host: a record that is not there.
    Std(String),
    Unauthorized,
    MaxTokenURIsLengthExceeded,
    TokenURIsListInvalidNumber,
    InvalidPerAddressLimit,
    MaxWhitelistAddressLengthExceeded,
    NotWhitelisted,
    NotEnoughFunds,
    SoldOut,
    BeforeMintStartTime,
    MaxPerAddressLimitExceeded,
    InvalidReplyID,
    InstantiateSg721Error,
}

pub enum SaleErrorView {
    Std(Seq<char>),
    Unauthorized,
    MaxTokenURIsLengthExceeded,
    TokenURIsListInvalidNumber,
    InvalidPerAddressLimit,
    MaxWhitelistAddressLengthExceeded,
    NotWhitelisted,
    NotEnoughFunds,
    SoldOut,
    BeforeMintStartTime,
    MaxPerAddressLimitExceeded,
    InvalidReplyID,
    InstantiateSg721Error,
}

impl View for SaleError {
    type V = SaleErrorView;

    open spec fn view(&self) -> SaleErrorView {
        match self {
            SaleError::Std(m) => SaleErrorView::Std(m@),
            SaleError::Unauthorized => SaleErrorView::Unauthorized,
            SaleError::MaxTokenURIsLengthExceeded => SaleErrorView::MaxTokenURIsLengthExceeded,
            SaleError::TokenURIsListInvalidNumber => SaleErrorView::TokenURIsListInvalidNumber,
            SaleError::InvalidPerAddressLimit => SaleErrorView::InvalidPerAddressLimit,
            SaleError::MaxWhitelistAddressLengthExceeded => {
                SaleErrorView::MaxWhitelistAddressLengthExceeded
            },
            SaleError::NotWhitelisted => SaleErrorView::NotWhitelisted,
            SaleError::NotEnoughFunds => SaleErrorView::NotEnoughFunds,
            SaleError::SoldOut => SaleErrorView::SoldOut,
            SaleError::BeforeMintStartTime => SaleErrorView::BeforeMintStartTime,
            SaleError::MaxPerAddressLimitExceeded => SaleErrorView::MaxPerAddressLimitExceeded,
            SaleError::InvalidReplyID => SaleErrorView::InvalidReplyID,
            SaleError::InstantiateSg721Error => SaleErrorView::InstantiateSg721Error,
        }
    }
}

} // verus!
