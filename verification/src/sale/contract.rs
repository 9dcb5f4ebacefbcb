//! The actions and the queries of a sale.

use vstd::prelude::*;
use vstd::string::*;
use crate::response::{Attribute, ReplyOn};
use crate::keyed::ascending;
use crate::sale::address_set::{address_key, address_order, AddressSet};
use crate::sale::expiration::{expiration_text, Expiration};
use crate::sale::funds::{has_coins, holds_exactly};
use crate::sale::model::{
    address_kind, admin_change_model, after, instantiate_model, mint_model, mint_payout,
    not_found, pay, reply_model, update_per_address_limit_model, update_whitelist_model,
    SaleOutcome,
};
use crate::sale::msg::{
    plain, sale_msgs_view, ConfigResponse, ConfigResponseView, ExecuteMsg, InstantiateMsg,
    QueryMsg, Reply, SaleError, SaleErrorView, SaleMsg, SaleMsgView, SaleResponse, SaleSubMsg,
    Sg721InstantiateMsg, StartTimeResponse, UpdateWhitelistMsg, WhitelistAddressesResponse,
    WhitelistExpirationResponse,
};
use crate::sale::state::{
    Config, ConfigView, SaleState, SaleStateView, INSTANTIATE_SG721_REPLY_ID,
    MAX_PER_ADDRESS_LIMIT, MAX_TOKEN_URIS_LENGTH, MAX_WHITELIST_ADDRS_LENGTH,
};
use crate::settlement::{
    lemma_share_within, mul_decimal, Decimal, RoyaltyQuery, RoyaltyQueryView, DECIMAL_FRACTIONAL,
};
use crate::types::{
    coins_view, opt_str_view, strs_view, Coin, CoinView, Env, EnvView, MessageInfo,
    MessageInfoView,
};

verus! {

/// `r` is what `outcome` says of the response or the failure.
pub open spec fn answers(r: Result<SaleResponse, SaleError>, outcome: SaleOutcome) -> bool {
    match outcome {
        Ok((_, response)) => r matches Ok(x) && x@ == response,
        Err(e) => r matches Err(x) && x@ == e,
    }
}

/// View of an optional list of addresses.
pub open spec fn opt_list_view(o: Option<Vec<String>>) -> Option<Seq<Seq<char>>> {
    match o {
        Some(v) => Some(strs_view(v@)),
        None => None,
    }
}

/// The failure of reading a record of kind `kind` that is not there.
fn missing(kind: &str) -> (e: SaleError)
    ensures
        e@ == not_found(kind@),
{
    SaleError::Std(String::from_str(kind).concat(" not found"))
}

/// An effect on which the host never reports back.
fn plain_msg(msg: SaleMsg) -> (r: SaleSubMsg)
    ensures
        r@ == plain(msg@),
{
    SaleSubMsg { id: 0, msg, reply_on: ReplyOn::Never }
}

/// Copies a list of coins.
fn clone_coins(v: &Vec<Coin>) -> (r: Vec<Coin>)
    ensures
        coins_view(r@) == coins_view(v@),
{
    let mut out: Vec<Coin> = Vec::new();
    let mut i: usize = 0;
    while i < v.len()
        invariant
            i <= v.len(),
            out.len() == i,
            forall|j: int| 0 <= j < i ==> out[j]@ == v[j]@,
        decreases v.len() - i,
    {
        out.push(v[i].clone());
        i = i + 1;
    }
    assert(coins_view(out@) =~= coins_view(v@));
    out
}

/// The payment of `amount` of `denom` to `to_address`.
fn pay_msg(to_address: &String, amount: u128, denom: &String) -> (r: SaleSubMsg)
    ensures
        r@ == pay(to_address@, amount, denom@),
{
    let mut coins: Vec<Coin> = Vec::new();
    coins.push(Coin { denom: denom.clone(), amount });
    assert(coins_view(coins@) =~= seq![CoinView { denom: denom@, amount }]);
    plain_msg(SaleMsg::Send { to_address: to_address.clone(), amount: coins })
}

/// Puts every address of `list` into `set`.
fn insert_all(set: &mut AddressSet, list: &Vec<String>)
    requires
        old(set).wf(),
    ensures
        final(set).wf(),
        final(set)@ == old(set)@.union(strs_view(list@).to_set()),
{
    let mut i: usize = 0;
    while i < list.len()
        invariant
            i <= list.len(),
            set.wf(),
            set@ == old(set)@.union(strs_view(list@).take(i as int).to_set()),
        decreases list.len() - i,
    {
        set.insert(list[i].clone());
        proof {
            let all = strs_view(list@);
            assert(all.take(i + 1) =~= all.take(i as int).push(all[i as int]));
            all.take(i as int).lemma_push_to_set_commute(all[i as int]);
            assert(set@ =~= old(set)@.union(all.take(i + 1).to_set()));
        }
        i = i + 1;
    }
    assert(strs_view(list@).take(i as int) =~= strs_view(list@));
}

/// Takes every address of `list` out of `set`.
fn remove_all(set: &mut AddressSet, list: &Vec<String>)
    requires
        old(set).wf(),
    ensures
        final(set).wf(),
        final(set)@ == old(set)@.difference(strs_view(list@).to_set()),
{
    let mut i: usize = 0;
    while i < list.len()
        invariant
            i <= list.len(),
            set.wf(),
            set@ == old(set)@.difference(strs_view(list@).take(i as int).to_set()),
        decreases list.len() - i,
    {
        set.remove(&list[i]);
        proof {
            let all = strs_view(list@);
            assert(all.take(i + 1) =~= all.take(i as int).push(all[i as int]));
            all.take(i as int).lemma_push_to_set_commute(all[i as int]);
            assert(set@ =~= old(set)@.difference(all.take(i + 1).to_set()));
        }
        i = i + 1;
    }
    assert(strs_view(list@).take(i as int) =~= strs_view(list@));
}

/// Sets a sale up.
pub fn instantiate(env: &Env, info: &MessageInfo, msg: InstantiateMsg) -> (r: Result<
    (SaleState, SaleResponse),
    SaleError,
>)
    ensures
        match instantiate_model(env@, info@, msg) {
            Ok((state, response)) => r matches Ok(x) && x.0.wf() && x.0@ == state && x.1@
                == response,
            Err(e) => r matches Err(x) && x@ == e,
        },
{
    if msg.token_uris.len() > MAX_TOKEN_URIS_LENGTH as usize {
        return Err(SaleError::MaxTokenURIsLengthExceeded);
    }
    if msg.token_uris.len() as u64 != msg.num_tokens {
        return Err(SaleError::TokenURIsListInvalidNumber);
    }
    if let Some(limit) = msg.per_address_limit {
        if limit > MAX_PER_ADDRESS_LIMIT {
            return Err(SaleError::InvalidPerAddressLimit);
        }
    }
    let mut whitelist = AddressSet::new();
    let mut count: Option<u32> = None;
    if let Some(list) = &msg.whitelist_addresses {
        if list.len() >= MAX_WHITELIST_ADDRS_LENGTH as usize {
            return Err(SaleError::MaxWhitelistAddressLengthExceeded);
        }
        insert_all(&mut whitelist, list);
        count = Some(list.len() as u32);
        assert(whitelist@ =~= strs_view(list@).to_set());
    }
    let state = SaleState {
        config: Config {
            admin: info.sender.clone(),
            num_tokens: msg.num_tokens,
            sg721_code_id: msg.sg721_code_id,
            unit_price: msg.unit_price,
            whitelist_expiration: msg.whitelist_expiration,
            start_time: msg.start_time,
            per_address_limit: msg.per_address_limit,
        },
        sg721_address: None,
        token_id_index: 0,
        token_uris: msg.token_uris,
        whitelist,
        num_whitelist_addrs: count,
    };
    let collection = SaleMsg::InstantiateCollection {
        code_id: msg.sg721_code_id,
        msg: Sg721InstantiateMsg {
            name: msg.sg721_instantiate_msg.name,
            symbol: msg.sg721_instantiate_msg.symbol,
            minter: env.contract.address.clone(),
            collection_info: msg.sg721_instantiate_msg.collection_info,
        },
        label: String::from_str("Instantiate fixed price NFT contract"),
    };
    let mut messages: Vec<SaleSubMsg> = Vec::new();
    messages.push(
        SaleSubMsg { id: INSTANTIATE_SG721_REPLY_ID, msg: collection, reply_on: ReplyOn::Success },
    );
    let mut attributes: Vec<Attribute> = Vec::new();
    attributes.push(
        Attribute { key: String::from_str("method"), value: String::from_str("instantiate") },
    );
    attributes.push(Attribute { key: String::from_str("admin"), value: info.sender.clone() });
    let response = SaleResponse { messages, attributes };
    proof {
        if let Ok((_, expected)) = instantiate_model(env@, info@, msg) {
            assert(response@.messages =~= expected.messages);
            assert(response@.attributes =~= expected.attributes);
        }
    }
    Ok((state, response))
}

/// The payments that share out a purchase.
fn payout(config: &Config, funds: &Vec<Coin>, royalty: &RoyaltyQuery) -> (r: Vec<SaleSubMsg>)
    requires
        royalty@ matches RoyaltyQueryView::Info(Some(info)) ==> info.royalty_rate.atomics
            <= DECIMAL_FRACTIONAL,
    ensures
        sale_msgs_view(r@) == mint_payout(config@, coins_view(funds@), royalty@),
{
    let mut out: Vec<SaleSubMsg> = Vec::new();
    match royalty {
        RoyaltyQuery::Info(Some(info)) => {
            if holds_exactly(funds, &config.unit_price) {
                let price = config.unit_price.amount;
                let rest = Decimal { atomics: DECIMAL_FRACTIONAL - info.royalty_rate.atomics };
                proof {
                    lemma_share_within(price, info.royalty_rate);
                    lemma_share_within(price, rest);
                }
                let royalty_share = mul_decimal(price, info.royalty_rate);
                let seller_share = mul_decimal(price, rest);
                out.push(pay_msg(&info.address, royalty_share, &config.unit_price.denom));
                out.push(pay_msg(&config.admin, seller_share, &config.unit_price.denom));
            }
        },
        RoyaltyQuery::Info(None) => {},
        _ => {
            out.push(
                plain_msg(
                    SaleMsg::Send { to_address: config.admin.clone(), amount: clone_coins(funds) },
                ),
            );
        },
    }
    assert(sale_msgs_view(out@) =~= mint_payout(config@, coins_view(funds@), royalty@));
    out
}

/// A buyer buys the next item. `royalty` is what the collection answered
/// when asked for its royalties, and `already_minted` the number of items of
/// the collection that the buyer holds.
pub fn execute_mint(
    state: &mut SaleState,
    env: &Env,
    info: &MessageInfo,
    royalty: &RoyaltyQuery,
    already_minted: u64,
) -> (r: Result<SaleResponse, SaleError>)
    requires
        old(state).wf(),
        royalty@ matches RoyaltyQueryView::Info(Some(info)) ==> info.royalty_rate.atomics
            <= DECIMAL_FRACTIONAL,
    ensures
        final(state).wf(),
        final(state)@ == after(
            old(state)@,
            mint_model(old(state)@, env@, info@, royalty@, already_minted),
        ),
        answers(r, mint_model(old(state)@, env@, info@, royalty@, already_minted)),
{
    let collection = match &state.sg721_address {
        Some(a) => a.clone(),
        None => {
            return Err(missing("cosmwasm_std::addresses::Addr"));
        },
    };
    let index = state.token_id_index;
    if index >= state.token_uris.len() as u64 {
        return Err(missing("alloc::string::String"));
    }
    let token_uri = state.token_uris[index as usize].clone();
    let allowlist = state.whitelist.has(&info.sender);
    if let Some(expiration) = &state.config.whitelist_expiration {
        if !expiration.is_expired(&env.block) && !allowlist {
            return Err(SaleError::NotWhitelisted);
        }
    }
    if !has_coins(&info.funds, &state.config.unit_price) {
        return Err(SaleError::NotEnoughFunds);
    }
    if index >= state.config.num_tokens {
        return Err(SaleError::SoldOut);
    }
    if let Some(start_time) = &state.config.start_time {
        if !start_time.is_expired(&env.block) {
            return Err(SaleError::BeforeMintStartTime);
        }
    }
    if let Some(limit) = state.config.per_address_limit {
        if already_minted >= limit {
            return Err(SaleError::MaxPerAddressLimitExceeded);
        }
    }
    let mut messages: Vec<SaleSubMsg> = Vec::new();
    messages.push(
        plain_msg(
            SaleMsg::Mint {
                contract_addr: collection,
                token_id: index,
                owner: info.sender.clone(),
                token_uri,
            },
        ),
    );
    let ghost first = sale_msgs_view(messages@);
    assert(first =~= seq![
        plain(
            SaleMsgView::Mint {
                contract_addr: old(state)@.sg721_address->0,
                token_id: index,
                owner: info@.sender,
                token_uri: old(state)@.token_uris[index as int],
            },
        ),
    ]);
    let mut shares = payout(&state.config, &info.funds, royalty);
    let ghost rest = sale_msgs_view(shares@);
    messages.append(&mut shares);
    assert(sale_msgs_view(messages@) =~= first + rest);
    state.token_id_index = index + 1;
    let response = SaleResponse { messages, attributes: Vec::new() };
    assert(response@.attributes =~= seq![]);
    Ok(response)
}

/// A change of the whitelist is in range when, where it goes through, it
/// removes no more addresses than the count holds after the additions.
pub open spec fn removal_in_range(
    s: SaleStateView,
    info: MessageInfoView,
    add: Option<Seq<Seq<char>>>,
    remove: Option<Seq<Seq<char>>>,
) -> bool {
    update_whitelist_model(s, info, add, remove) is Ok ==> match (s.num_whitelist_addrs, remove) {
        (Some(count), Some(gone)) => gone.len() <= count + (match add {
            Some(a) => a.len(),
            None => 0,
        }),
        _ => true,
    }
}

/// The admin changes the whitelist. The change must be in range: the count
/// cannot go below zero.
pub fn execute_update_whitelist(
    state: &mut SaleState,
    _env: &Env,
    info: &MessageInfo,
    update_whitelist_msg: UpdateWhitelistMsg,
) -> (r: Result<SaleResponse, SaleError>)
    requires
        old(state).wf(),
        removal_in_range(
            old(state)@,
            info@,
            opt_list_view(update_whitelist_msg.add_addresses),
            opt_list_view(update_whitelist_msg.remove_addresses),
        ),
    ensures
        final(state).wf(),
        final(state)@ == after(
            old(state)@,
            update_whitelist_model(
                old(state)@,
                info@,
                opt_list_view(update_whitelist_msg.add_addresses),
                opt_list_view(update_whitelist_msg.remove_addresses),
            ),
        ),
        answers(
            r,
            update_whitelist_model(
                old(state)@,
                info@,
                opt_list_view(update_whitelist_msg.add_addresses),
                opt_list_view(update_whitelist_msg.remove_addresses),
            ),
        ),
{
    let mut count: u64 = match state.num_whitelist_addrs {
        Some(count) => count as u64,
        None => {
            return Err(missing("u32"));
        },
    };
    if info.sender != state.config.admin {
        return Err(SaleError::Unauthorized);
    }
    let ghost before = state.whitelist@;
    let ghost added: Seq<Seq<char>> = match opt_list_view(update_whitelist_msg.add_addresses) {
        Some(a) => a,
        None => seq![],
    };
    match &update_whitelist_msg.add_addresses {
        Some(list) => {
            if list.len() as u64 >= MAX_WHITELIST_ADDRS_LENGTH as u64 || count + list.len() as u64
                >= MAX_WHITELIST_ADDRS_LENGTH as u64 {
                return Err(SaleError::MaxWhitelistAddressLengthExceeded);
            }
            insert_all(&mut state.whitelist, list);
            count = count + list.len() as u64;
        },
        None => {
            assert(state.whitelist@ =~= before.union(added.to_set()));
        },
    }
    match &update_whitelist_msg.remove_addresses {
        Some(list) => {
            remove_all(&mut state.whitelist, list);
            count = count - list.len() as u64;
        },
        None => {
            assert(state.whitelist@ =~= state.whitelist@.difference(Seq::<Seq<char>>::empty().to_set()));
        },
    }
    state.num_whitelist_addrs = Some(count as u32);
    Ok(SaleResponse::of_method("updated_whitelist_addresses"))
}

/// The admin sets until when only whitelisted buyers may buy.
pub fn execute_update_whitelist_expiration(
    state: &mut SaleState,
    _env: &Env,
    info: &MessageInfo,
    whitelist_expiration: Expiration,
) -> (r: Result<SaleResponse, SaleError>)
    requires
        old(state).wf(),
    ensures
        final(state).wf(),
        final(state)@ == after(
            old(state)@,
            admin_change_model(
                old(state)@,
                info@,
                ConfigView { whitelist_expiration: Some(whitelist_expiration), ..old(state)@.config },
                "updated_whitelist_expiration"@,
            ),
        ),
        answers(
            r,
            admin_change_model(
                old(state)@,
                info@,
                ConfigView { whitelist_expiration: Some(whitelist_expiration), ..old(state)@.config },
                "updated_whitelist_expiration"@,
            ),
        ),
{
    if info.sender != state.config.admin {
        return Err(SaleError::Unauthorized);
    }
    state.config.whitelist_expiration = Some(whitelist_expiration);
    Ok(SaleResponse::of_method("updated_whitelist_expiration"))
}

/// The admin sets from when on items may be bought.
pub fn execute_update_start_time(
    state: &mut SaleState,
    _env: &Env,
    info: &MessageInfo,
    start_time: Expiration,
) -> (r: Result<SaleResponse, SaleError>)
    requires
        old(state).wf(),
    ensures
        final(state).wf(),
        final(state)@ == after(
            old(state)@,
            admin_change_model(
                old(state)@,
                info@,
                ConfigView { start_time: Some(start_time), ..old(state)@.config },
                "update_start_time"@,
            ),
        ),
        answers(
            r,
            admin_change_model(
                old(state)@,
                info@,
                ConfigView { start_time: Some(start_time), ..old(state)@.config },
                "update_start_time"@,
            ),
        ),
{
    if info.sender != state.config.admin {
        return Err(SaleError::Unauthorized);
    }
    state.config.start_time = Some(start_time);
    Ok(SaleResponse::of_method("update_start_time"))
}

/// The admin sets how many items one buyer may hold.
pub fn execute_update_per_address_limit(
    state: &mut SaleState,
    _env: &Env,
    info: &MessageInfo,
    per_address_limit: u64,
) -> (r: Result<SaleResponse, SaleError>)
    requires
        old(state).wf(),
    ensures
        final(state).wf(),
        final(state)@ == after(
            old(state)@,
            update_per_address_limit_model(old(state)@, info@, per_address_limit),
        ),
        answers(r, update_per_address_limit_model(old(state)@, info@, per_address_limit)),
{
    if info.sender != state.config.admin {
        return Err(SaleError::Unauthorized);
    }
    if per_address_limit > MAX_PER_ADDRESS_LIMIT {
        return Err(SaleError::InvalidPerAddressLimit);
    }
    state.config.per_address_limit = Some(per_address_limit);
    Ok(SaleResponse::of_method("update_per_address_limit"))
}

/// The terms of the sale, the collection contract and the number of the next
/// item; fails while the collection contract has not been set up.
pub fn query_config(state: &SaleState) -> (r: Result<ConfigResponse, SaleError>)
    ensures
        match state@.sg721_address {
            Some(collection) => r matches Ok(x) && x@ == (ConfigResponseView {
                admin: state@.config.admin,
                sg721_address: collection,
                sg721_code_id: state@.config.sg721_code_id,
                num_tokens: state@.config.num_tokens,
                unit_price: state@.config.unit_price,
                unused_token_id: state@.token_id_index,
                per_address_limit: state@.config.per_address_limit,
            }),
            None => r matches Err(e) && e@ == not_found(address_kind()),
        },
{
    let collection = match &state.sg721_address {
        Some(a) => a.clone(),
        None => {
            return Err(missing("cosmwasm_std::addresses::Addr"));
        },
    };
    Ok(
        ConfigResponse {
            admin: state.config.admin.clone(),
            sg721_address: collection,
            sg721_code_id: state.config.sg721_code_id,
            num_tokens: state.config.num_tokens,
            unit_price: state.config.unit_price.clone(),
            unused_token_id: state.token_id_index,
            per_address_limit: state.config.per_address_limit,
        },
    )
}

/// The whitelisted addresses, each once, in ascending order.
pub fn query_whitelist_addresses(state: &SaleState) -> (r: WhitelistAddressesResponse)
    requires
        state.wf(),
    ensures
        strs_view(r.addresses@) == state.whitelist.entries(),
        ascending(strs_view(r.addresses@), address_key(), address_order()),
        forall|a: Seq<char>| state@.whitelist.contains(a) <==> strs_view(r.addresses@).contains(a),
{
    WhitelistAddressesResponse { addresses: state.whitelist.list() }
}

/// Until when only whitelisted buyers may buy, in words; fails where no such
/// time is set.
pub fn query_whitelist_expiration(state: &SaleState) -> (r: Result<
    WhitelistExpirationResponse,
    SaleError,
>)
    ensures
        match state@.config.whitelist_expiration {
            Some(e) => r matches Ok(x) && x.expiration_time@ == expiration_text(e),
            None => r matches Err(e) && e@ == SaleErrorView::Std(
                "whitelist expiration not found"@,
            ),
        },
{
    match &state.config.whitelist_expiration {
        Some(e) => Ok(WhitelistExpirationResponse { expiration_time: e.to_string() }),
        None => Err(SaleError::Std(String::from_str("whitelist expiration not found"))),
    }
}

/// From when on items may be bought, in words; fails where no start time is
/// set.
pub fn query_start_time(state: &SaleState) -> (r: Result<StartTimeResponse, SaleError>)
    ensures
        match state@.config.start_time {
            Some(e) => r matches Ok(x) && x.start_time@ == expiration_text(e),
            None => r matches Err(e) && e@ == SaleErrorView::Std("start time not found"@),
        },
{
    match &state.config.start_time {
        Some(e) => Ok(StartTimeResponse { start_time: e.to_string() }),
        None => Err(SaleError::Std(String::from_str("start time not found"))),
    }
}

/// The answer to a question, by the kind of question.
#[derive(Debug, PartialEq, Eq)]
pub enum QueryResponse {
    Config(ConfigResponse),
    WhitelistAddresses(WhitelistAddressesResponse),
    WhitelistExpiration(WhitelistExpirationResponse),
    StartTime(StartTimeResponse),
}

/// Answers the question that `msg` asks: with the answer of the function
/// that `msg` names, or with its failure.
pub fn query(state: &SaleState, msg: QueryMsg) -> (r: Result<QueryResponse, SaleError>)
    requires
        state.wf(),
    ensures
        match msg {
            QueryMsg::GetConfig {  } => match r {
                Ok(QueryResponse::Config(x)) => call_ensures(
                    query_config,
                    (state,),
                    Ok::<ConfigResponse, SaleError>(x),
                ),
                Ok(_) => false,
                Err(e) => call_ensures(query_config, (state,), Err::<ConfigResponse, SaleError>(e)),
            },
            QueryMsg::GetWhitelistAddresses {  } => r matches Ok(
                QueryResponse::WhitelistAddresses(x),
            ) && call_ensures(query_whitelist_addresses, (state,), x),
            QueryMsg::GetWhitelistExpiration {  } => match r {
                Ok(QueryResponse::WhitelistExpiration(x)) => call_ensures(
                    query_whitelist_expiration,
                    (state,),
                    Ok::<WhitelistExpirationResponse, SaleError>(x),
                ),
                Ok(_) => false,
                Err(e) => call_ensures(
                    query_whitelist_expiration,
                    (state,),
                    Err::<WhitelistExpirationResponse, SaleError>(e),
                ),
            },
            QueryMsg::GetStartTime {  } => match r {
                Ok(QueryResponse::StartTime(x)) => call_ensures(
                    query_start_time,
                    (state,),
                    Ok::<StartTimeResponse, SaleError>(x),
                ),
                Ok(_) => false,
                Err(e) => call_ensures(
                    query_start_time,
                    (state,),
                    Err::<StartTimeResponse, SaleError>(e),
                ),
            },
        },
{
    match msg {
        QueryMsg::GetConfig {  } => match query_config(state) {
            Ok(x) => Ok(QueryResponse::Config(x)),
            Err(e) => Err(e),
        },
        QueryMsg::GetWhitelistAddresses {  } => Ok(
            QueryResponse::WhitelistAddresses(query_whitelist_addresses(state)),
        ),
        QueryMsg::GetWhitelistExpiration {  } => match query_whitelist_expiration(state) {
            Ok(x) => Ok(QueryResponse::WhitelistExpiration(x)),
            Err(e) => Err(e),
        },
        QueryMsg::GetStartTime {  } => match query_start_time(state) {
            Ok(x) => Ok(QueryResponse::StartTime(x)),
            Err(e) => Err(e),
        },
    }
}

/// The address of the contract that the host reports to have set up, if the
/// report is a success and carries one, as `cw_utils` reads it.
pub uninterp spec fn instantiated_address(result: Result<Option<Seq<u8>>, Seq<char>>) -> Option<
    Seq<char>,
>;

/// View of the outcome that a report carries.
pub open spec fn reply_result_view(result: Result<Option<Vec<u8>>, String>) -> Result<
    Option<Seq<u8>>,
    Seq<char>,
> {
    match result {
        Ok(Some(data)) => Ok(Some(data@)),
        Ok(None) => Ok(None),
        Err(e) => Err(e@),
    }
}

/// Reads the address of the new contract out of the host's report with
/// `cw_utils::parse_reply_instantiate_data`, which decodes the data of the
/// report and depends on nothing but the report.
#[verifier::external_body]
fn parse_instantiated_address(result: &Result<Option<Vec<u8>>, String>) -> (r: Option<String>)
    ensures
        opt_str_view(r) == instantiated_address(reply_result_view(*result)),
{
    let result = match result {
        Ok(data) => cosmwasm_std::SubMsgResult::Ok(
            cosmwasm_std::SubMsgResponse {
                events: Vec::new(),
                data: data.clone().map(cosmwasm_std::Binary),
            },
        ),
        Err(e) => cosmwasm_std::SubMsgResult::Err(e.clone()),
    };
    match cw_utils::parse_reply_instantiate_data(cosmwasm_std::Reply { id: 0, result }) {
        Ok(parsed) => Some(parsed.contract_address),
        Err(_) => None,
    }
}

/// Keeps the address of the collection contract that a report under tag
/// `id` was found to carry.
pub fn keep_collection(state: &mut SaleState, id: u64, address: Option<String>) -> (r: Result<
    SaleResponse,
    SaleError,
>)
    requires
        old(state).wf(),
    ensures
        final(state).wf(),
        final(state)@ == after(old(state)@, reply_model(old(state)@, id, opt_str_view(address))),
        answers(r, reply_model(old(state)@, id, opt_str_view(address))),
{
    if id != INSTANTIATE_SG721_REPLY_ID {
        return Err(SaleError::InvalidReplyID);
    }
    match address {
        Some(a) => {
            state.sg721_address = Some(a);
            Ok(SaleResponse::new())
        },
        None => Err(SaleError::InstantiateSg721Error),
    }
}

/// Takes the host's report on the setting up of the collection contract.
pub fn reply(state: &mut SaleState, msg: Reply) -> (r: Result<SaleResponse, SaleError>)
    requires
        old(state).wf(),
    ensures
        final(state).wf(),
        final(state)@ == after(
            old(state)@,
            reply_model(old(state)@, msg.id, instantiated_address(reply_result_view(msg.result))),
        ),
        answers(
            r,
            reply_model(old(state)@, msg.id, instantiated_address(reply_result_view(msg.result))),
        ),
{
    if msg.id != INSTANTIATE_SG721_REPLY_ID {
        return keep_collection(state, msg.id, None);
    }
    let address = parse_instantiated_address(&msg.result);
    keep_collection(state, msg.id, address)
}

/// Where `msg` leads: what the action it names leads to.
pub open spec fn execute_model(
    s: SaleStateView,
    env: EnvView,
    info: MessageInfoView,
    msg: ExecuteMsg,
    royalty: RoyaltyQueryView,
    already_minted: u64,
) -> SaleOutcome {
    match msg {
        ExecuteMsg::Mint {  } => mint_model(s, env, info, royalty, already_minted),
        ExecuteMsg::UpdateWhitelist(update) => update_whitelist_model(
            s,
            info,
            opt_list_view(update.add_addresses),
            opt_list_view(update.remove_addresses),
        ),
        ExecuteMsg::WhitelistExpiration(expiration) => admin_change_model(
            s,
            info,
            ConfigView { whitelist_expiration: Some(expiration), ..s.config },
            "updated_whitelist_expiration"@,
        ),
        ExecuteMsg::UpdateStartTime(start_time) => admin_change_model(
            s,
            info,
            ConfigView { start_time: Some(start_time), ..s.config },
            "update_start_time"@,
        ),
        ExecuteMsg::UpdatePerAddressLimit { per_address_limit } => update_per_address_limit_model(
            s,
            info,
            per_address_limit,
        ),
    }
}

/// What `execute` asks of `msg`: a change of the whitelist must be in range.
pub open spec fn in_range(s: SaleStateView, info: MessageInfoView, msg: ExecuteMsg) -> bool {
    match msg {
        ExecuteMsg::UpdateWhitelist(update) => removal_in_range(
            s,
            info,
            opt_list_view(update.add_addresses),
            opt_list_view(update.remove_addresses),
        ),
        _ => true,
    }
}

/// Carries out the action that `msg` names.
pub fn execute(
    state: &mut SaleState,
    env: &Env,
    info: &MessageInfo,
    msg: ExecuteMsg,
    royalty: &RoyaltyQuery,
    already_minted: u64,
) -> (r: Result<SaleResponse, SaleError>)
    requires
        old(state).wf(),
        royalty@ matches RoyaltyQueryView::Info(Some(info)) ==> info.royalty_rate.atomics
            <= DECIMAL_FRACTIONAL,
        in_range(old(state)@, info@, msg),
    ensures
        final(state).wf(),
        final(state)@ == after(
            old(state)@,
            execute_model(old(state)@, env@, info@, msg, royalty@, already_minted),
        ),
        answers(r, execute_model(old(state)@, env@, info@, msg, royalty@, already_minted)),
{
    match msg {
        ExecuteMsg::Mint {  } => execute_mint(state, env, info, royalty, already_minted),
        ExecuteMsg::UpdateWhitelist(update) => execute_update_whitelist(state, env, info, update),
        ExecuteMsg::WhitelistExpiration(expiration) => execute_update_whitelist_expiration(
            state,
            env,
            info,
            expiration,
        ),
        ExecuteMsg::UpdateStartTime(start_time) => execute_update_start_time(
            state,
            env,
            info,
            start_time,
        ),
        ExecuteMsg::UpdatePerAddressLimit { per_address_limit } => {
            execute_update_per_address_limit(state, env, info, per_address_limit)
        },
    }
}

} // verus!
