//! What a sale keeps between actions.

use vstd::prelude::*;
use crate::sale::address_set::AddressSet;
use crate::sale::expiration::Expiration;
use crate::types::{opt_str_view, strs_view, Coin, CoinView};

verus! {

/// Largest number of items a sale can offer.
pub const MAX_TOKEN_URIS_LENGTH: u32 = 15000;

/// The number of whitelisted addresses must stay below this.
pub const MAX_WHITELIST_ADDRS_LENGTH: u32 = 15000;

/// Largest limit on the items one buyer may hold.
pub const MAX_PER_ADDRESS_LIMIT: u64 = 30;

/// The tag under which the host reports that the collection was set up.
pub const INSTANTIATE_SG721_REPLY_ID: u64 = 1;

/// The terms of a sale.
#[derive(Debug, PartialEq, Eq)]
pub struct Config {
    /// Who set the sale up, runs it and is paid.
    pub admin: String,
    /// How many items are on sale.
    pub num_tokens: u64,
    /// The code of the collection contract.
    pub sg721_code_id: u64,
    /// The price of one item.
    pub unit_price: Coin,
    /// Until when only whitelisted buyers may buy.
    pub whitelist_expiration: Option<Expiration>,
    /// From when on items may be bought.
    pub start_time: Option<Expiration>,
    /// How many items one buyer may hold.
    pub per_address_limit: Option<u64>,
}

pub struct ConfigView {
    pub admin: Seq<char>,
    pub num_tokens: u64,
    pub sg721_code_id: u64,
    pub unit_price: CoinView,
    pub whitelist_expiration: Option<Expiration>,
    pub start_time: Option<Expiration>,
    pub per_address_limit: Option<u64>,
}

impl View for Config {
    type V = ConfigView;

    open spec fn view(&self) -> ConfigView {
        ConfigView {
            admin: self.admin@,
            num_tokens: self.num_tokens,
            sg721_code_id: self.sg721_code_id,
            unit_price: self.unit_price@,
            whitelist_expiration: self.whitelist_expiration,
            start_time: self.start_time,
            per_address_limit: self.per_address_limit,
        }
    }
}

/// Everything a sale keeps between actions.
#[derive(Debug)]
pub struct SaleState {
    pub config: Config,
    /// The collection contract, once the host has reported its address.
    pub sg721_address: Option<String>,
    /// The number of the next item to be minted.
    pub token_id_index: u64,
    /// Where the metadata of each item lies, by the item's number.
    pub token_uris: Vec<String>,
    /// Who may buy before the whitelist expires.
    pub whitelist: AddressSet,
    /// The count of whitelisted addresses, as additions and removals have
    /// moved it; absent where the sale was set up without a whitelist.
    pub num_whitelist_addrs: Option<u32>,
}

pub struct SaleStateView {
    pub config: ConfigView,
    pub sg721_address: Option<Seq<char>>,
    pub token_id_index: u64,
    pub token_uris: Seq<Seq<char>>,
    pub whitelist: Set<Seq<char>>,
    pub num_whitelist_addrs: Option<u32>,
}

impl View for SaleState {
    type V = SaleStateView;

    open spec fn view(&self) -> SaleStateView {
        SaleStateView {
            config: self.config@,
            sg721_address: opt_str_view(self.sg721_address),
            token_id_index: self.token_id_index,
            token_uris: strs_view(self.token_uris@),
            whitelist: self.whitelist@,
            num_whitelist_addrs: self.num_whitelist_addrs,
        }
    }
}

impl SaleState {
    /// The whitelist holds each address once.
    pub open spec fn wf(&self) -> bool {
        self.whitelist.wf()
    }
}

} // verus!
