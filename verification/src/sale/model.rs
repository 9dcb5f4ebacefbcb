//! The sale as a state machine: for each action, the state and the response
//! it leads to, or the failure it ends in.

use vstd::prelude::*;
use crate::response::{AttributeView, ReplyOn};
use crate::sale::funds::covers;
use crate::sale::msg::{
    plain, InstantiateMsg, SaleErrorView, SaleMsgView, SaleResponseView, SaleSubMsgView,
    Sg721InstantiateMsgView,
};
use crate::sale::state::{
    ConfigView, SaleStateView, INSTANTIATE_SG721_REPLY_ID, MAX_PER_ADDRESS_LIMIT,
    MAX_TOKEN_URIS_LENGTH, MAX_WHITELIST_ADDRS_LENGTH,
};
use crate::settlement::{royalty_share, Decimal, RoyaltyQueryView, DECIMAL_FRACTIONAL};
use crate::types::{strs_view, CoinView, EnvView, MessageInfoView};

verus! {

/// Where an action of a sale leads: the next state and the response, or a
/// failure.
pub type SaleOutcome = Result<(SaleStateView, SaleResponseView), SaleErrorView>;

/// The state after an action: the next state where it succeeded, the state
/// before it where it failed.
pub open spec fn after(before: SaleStateView, outcome: SaleOutcome) -> SaleStateView {
    match outcome {
        Ok((next, _)) => next,
        Err(_) => before,
    }
}

/// The failure of reading a record of kind `kind` that is not there.
pub open spec fn not_found(kind: Seq<char>) -> SaleErrorView {
    SaleErrorView::Std(kind + " not found"@)
}

/// The kind of record that holds the collection's address.
pub open spec fn address_kind() -> Seq<char> {
    "cosmwasm_std::addresses::Addr"@
}

/// The kind of record that holds the place of an item's metadata.
pub open spec fn uri_kind() -> Seq<char> {
    "alloc::string::String"@
}

/// The kind of record that holds the count of whitelisted addresses.
pub open spec fn count_kind() -> Seq<char> {
    "u32"@
}

/// Setting a sale up.
///
/// In order: at most `MAX_TOKEN_URIS_LENGTH` items may be offered
/// (`MaxTokenURIsLengthExceeded`); there must be as many places of metadata
/// as items (`TokenURIsListInvalidNumber`); a limit per buyer may not exceed
/// `MAX_PER_ADDRESS_LIMIT` (`InvalidPerAddressLimit`); a whitelist must have
/// fewer than `MAX_WHITELIST_ADDRS_LENGTH` addresses
/// (`MaxWhitelistAddressLengthExceeded`). The caller becomes the admin, no
/// item is minted yet, and the host is asked to set up the collection
/// contract with the sale as its minter and to report back on success.
pub open spec fn instantiate_model(env: EnvView, info: MessageInfoView, msg: InstantiateMsg)
    -> SaleOutcome {
    let uris = strs_view(msg.token_uris@);
    if uris.len() > MAX_TOKEN_URIS_LENGTH {
        Err(SaleErrorView::MaxTokenURIsLengthExceeded)
    } else if uris.len() != msg.num_tokens {
        Err(SaleErrorView::TokenURIsListInvalidNumber)
    } else if msg.per_address_limit matches Some(limit) && limit > MAX_PER_ADDRESS_LIMIT {
        Err(SaleErrorView::InvalidPerAddressLimit)
    } else if msg.whitelist_addresses matches Some(list) && list@.len()
        >= MAX_WHITELIST_ADDRS_LENGTH {
        Err(SaleErrorView::MaxWhitelistAddressLengthExceeded)
    } else {
        Ok(
            (
                SaleStateView {
                    config: ConfigView {
                        admin: info.sender,
                        num_tokens: msg.num_tokens,
                        sg721_code_id: msg.sg721_code_id,
                        unit_price: msg.unit_price@,
                        whitelist_expiration: msg.whitelist_expiration,
                        start_time: msg.start_time,
                        per_address_limit: msg.per_address_limit,
                    },
                    sg721_address: None,
                    token_id_index: 0,
                    token_uris: uris,
                    whitelist: match msg.whitelist_addresses {
                        Some(list) => strs_view(list@).to_set(),
                        None => Set::empty(),
                    },
                    num_whitelist_addrs: match msg.whitelist_addresses {
                        Some(list) => Some(list@.len() as u32),
                        None => None,
                    },
                },
                SaleResponseView {
                    messages: seq![
                        SaleSubMsgView {
                            id: INSTANTIATE_SG721_REPLY_ID,
                            msg: SaleMsgView::InstantiateCollection {
                                code_id: msg.sg721_code_id,
                                msg: Sg721InstantiateMsgView {
                                    name: msg.sg721_instantiate_msg.name@,
                                    symbol: msg.sg721_instantiate_msg.symbol@,
                                    minter: env.contract,
                                    collection_info: msg.sg721_instantiate_msg.collection_info@,
                                },
                                label: "Instantiate fixed price NFT contract"@,
                            },
                            reply_on: ReplyOn::Success,
                        },
                    ],
                    attributes: seq![
                        AttributeView { key: "method"@, value: "instantiate"@ },
                        AttributeView { key: "admin"@, value: info.sender },
                    ],
                },
            ),
        )
    }
}

/// The payment of `amount` of `denom` to `to_address`.
pub open spec fn pay(to_address: Seq<char>, amount: u128, denom: Seq<char>) -> SaleSubMsgView {
    plain(SaleMsgView::Send { to_address, amount: seq![CoinView { denom, amount }] })
}

/// What is left of one whole when `rate` is taken off.
pub open spec fn complement(rate: Decimal) -> Decimal {
    Decimal { atomics: (DECIMAL_FRACTIONAL - rate.atomics) as u128 }
}

/// Who is paid for a purchase.
///
/// Where the collection has royalties and the funds hold the unit price as
/// one coin, the royalty recipient is paid the price times the rate and the
/// admin the price times the rest of the rate, each rounded down. Where the
/// collection answered without royalties, or the funds do not hold the unit
/// price as one coin, nobody is paid. Where the collection could not be
/// asked, the admin is paid all the funds.
pub open spec fn mint_payout(config: ConfigView, funds: Seq<CoinView>, royalty: RoyaltyQueryView)
    -> Seq<SaleSubMsgView> {
    match royalty {
        RoyaltyQueryView::Info(Some(r)) => if funds.contains(config.unit_price) {
            let price = config.unit_price;
            seq![
                pay(r.address, royalty_share(price.amount, r.royalty_rate) as u128, price.denom),
                pay(
                    config.admin,
                    royalty_share(price.amount, complement(r.royalty_rate)) as u128,
                    price.denom,
                ),
            ]
        } else {
            seq![]
        },
        RoyaltyQueryView::Info(None) => seq![],
        _ => seq![plain(SaleMsgView::Send { to_address: config.admin, amount: funds })],
    }
}

/// Buying the next item.
///
/// In order: the collection contract must have been set up; the place of the
/// next item's metadata must be on record; while the whitelist has not
/// expired the buyer must be on it (`NotWhitelisted`); the funds must cover
/// the unit price (`NotEnoughFunds`); an item must be left (`SoldOut`); the
/// start time, if there is one, must have come (`BeforeMintStartTime`); the
/// buyer must hold fewer items than the limit per buyer allows
/// (`MaxPerAddressLimitExceeded`). The collection is then told to mint the
/// item to the buyer, the next item's number goes up by one, and the payment
/// is shared out.
pub open spec fn mint_model(
    s: SaleStateView,
    env: EnvView,
    info: MessageInfoView,
    royalty: RoyaltyQueryView,
    already_minted: u64,
) -> SaleOutcome {
    match s.sg721_address {
        None => Err(not_found(address_kind())),
        Some(collection) => if s.token_id_index >= s.token_uris.len() {
            Err(not_found(uri_kind()))
        } else if s.config.whitelist_expiration matches Some(e) && !e.expired_at(
            env.height,
            env.now,
        ) && !s.whitelist.contains(info.sender) {
            Err(SaleErrorView::NotWhitelisted)
        } else if !covers(info.funds, s.config.unit_price) {
            Err(SaleErrorView::NotEnoughFunds)
        } else if s.token_id_index >= s.config.num_tokens {
            Err(SaleErrorView::SoldOut)
        } else if s.config.start_time matches Some(t) && !t.expired_at(env.height, env.now) {
            Err(SaleErrorView::BeforeMintStartTime)
        } else if s.config.per_address_limit matches Some(limit) && already_minted >= limit {
            Err(SaleErrorView::MaxPerAddressLimitExceeded)
        } else {
            Ok(
                (
                    SaleStateView { token_id_index: (s.token_id_index + 1) as u64, ..s },
                    SaleResponseView {
                        messages: seq![
                            plain(
                                SaleMsgView::Mint {
                                    contract_addr: collection,
                                    token_id: s.token_id_index,
                                    owner: info.sender,
                                    token_uri: s.token_uris[s.token_id_index as int],
                                },
                            ),
                        ] + mint_payout(s.config, info.funds, royalty),
                        attributes: seq![],
                    },
                ),
            )
        },
    }
}

/// Changing the whitelist.
///
/// In order: the count of whitelisted addresses must be on record; the caller
/// must be the admin (`Unauthorized`); the count and the number of addresses
/// to add must together stay below `MAX_WHITELIST_ADDRS_LENGTH`
/// (`MaxWhitelistAddressLengthExceeded`). The addresses to add are put on the
/// whitelist, then the addresses to remove are taken off it; the count goes
/// up by the number of the first and down by the number of the second.
pub open spec fn update_whitelist_model(
    s: SaleStateView,
    info: MessageInfoView,
    add: Option<Seq<Seq<char>>>,
    remove: Option<Seq<Seq<char>>>,
) -> SaleOutcome {
    match s.num_whitelist_addrs {
        None => Err(not_found(count_kind())),
        Some(count) => {
            let added: Seq<Seq<char>> = match add {
                Some(a) => a,
                None => seq![],
            };
            let removed: Seq<Seq<char>> = match remove {
                Some(r) => r,
                None => seq![],
            };
            if info.sender != s.config.admin {
                Err(SaleErrorView::Unauthorized)
            } else if add is Some && count + added.len() >= MAX_WHITELIST_ADDRS_LENGTH {
                Err(SaleErrorView::MaxWhitelistAddressLengthExceeded)
            } else {
                Ok(
                    (
                        SaleStateView {
                            whitelist: s.whitelist.union(added.to_set()).difference(
                                removed.to_set(),
                            ),
                            num_whitelist_addrs: Some(
                                (count + added.len() - removed.len()) as u32,
                            ),
                            ..s
                        },
                        SaleResponseView::of_method("updated_whitelist_addresses"@),
                    ),
                )
            }
        },
    }
}

/// A change of the terms that only the admin may make: `changed` is the
/// terms after it, `method` the name it is recorded under.
pub open spec fn admin_change_model(
    s: SaleStateView,
    info: MessageInfoView,
    changed: ConfigView,
    method: Seq<char>,
) -> SaleOutcome {
    if info.sender != s.config.admin {
        Err(SaleErrorView::Unauthorized)
    } else {
        Ok((SaleStateView { config: changed, ..s }, SaleResponseView::of_method(method)))
    }
}

/// Changing the limit on the items one buyer may hold: only the admin may,
/// and the limit may not exceed `MAX_PER_ADDRESS_LIMIT`
/// (`InvalidPerAddressLimit`).
pub open spec fn update_per_address_limit_model(
    s: SaleStateView,
    info: MessageInfoView,
    per_address_limit: u64,
) -> SaleOutcome {
    if info.sender != s.config.admin {
        Err(SaleErrorView::Unauthorized)
    } else if per_address_limit > MAX_PER_ADDRESS_LIMIT {
        Err(SaleErrorView::InvalidPerAddressLimit)
    } else {
        Ok(
            (
                SaleStateView {
                    config: ConfigView { per_address_limit: Some(per_address_limit), ..s.config },
                    ..s
                },
                SaleResponseView::of_method("update_per_address_limit"@),
            ),
        )
    }
}

/// Taking the host's report on the setting up of the collection contract:
/// the report must carry the tag it was asked for under (`InvalidReplyID`)
/// and the address of the new contract (`InstantiateSg721Error`), which the
/// sale then keeps.
pub open spec fn reply_model(s: SaleStateView, id: u64, address: Option<Seq<char>>) -> SaleOutcome {
    if id != INSTANTIATE_SG721_REPLY_ID {
        Err(SaleErrorView::InvalidReplyID)
    } else {
        match address {
            None => Err(SaleErrorView::InstantiateSg721Error),
            Some(a) => Ok(
                (SaleStateView { sg721_address: Some(a), ..s }, SaleResponseView::empty()),
            ),
        }
    }
}

} // verus!
