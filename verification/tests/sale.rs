use std::collections::BTreeMap;

use marketplace::response::{Attribute, ReplyOn};
use marketplace::sale::address_set::AddressSet;
use marketplace::sale::contract::{
    execute, execute_mint, execute_update_whitelist, instantiate, keep_collection, query,
    query_config, query_start_time, query_whitelist_addresses, query_whitelist_expiration, reply,
    QueryResponse,
};
use marketplace::sale::expiration::Expiration;
use marketplace::sale::funds::holds_exactly;
use marketplace::sale::msg::{
    CollectionInfo, ExecuteMsg, InstantiateMsg, QueryMsg, Reply, SaleError, SaleMsg, SaleResponse,
    SaleSubMsg, Sg721InstantiateMsg, UpdateWhitelistMsg,
};
use marketplace::sale::state::SaleState;
use marketplace::settlement::{Decimal, RoyaltyInfo, RoyaltyQuery};
use marketplace::types::{BlockInfo, Coin, ContractInfo, Env, MessageInfo, Timestamp};

const DENOM: &str = "ustars";
const INITIAL_BALANCE: u128 = 2000;
const PRICE: u128 = 10;
const MAX_WHITELIST_ADDRS_LENGTH: u32 = 15000;
const SALE: &str = "contract0";
const COLLECTION: &str = "contract1";

fn coin(amount: u128, denom: &str) -> Coin {
    Coin { denom: denom.to_string(), amount }
}

fn coins(amount: u128, denom: &str) -> Vec<Coin> {
    vec![coin(amount, denom)]
}

fn percent(p: u128) -> Decimal {
    Decimal { atomics: p * 10_000_000_000_000_000 }
}

fn instantiate_msg(creator: &str, num_tokens: u64, uris: usize) -> InstantiateMsg {
    InstantiateMsg {
        unit_price: coin(PRICE, DENOM),
        num_tokens,
        token_uris: vec![String::from("https://stargaze.zone/logo.png"); uris],
        whitelist_expiration: None,
        whitelist_addresses: Some(vec![String::from("VIPcollector")]),
        start_time: None,
        per_address_limit: None,
        sg721_code_id: 1,
        sg721_instantiate_msg: Sg721InstantiateMsg {
            name: String::from("TEST"),
            symbol: String::from("TEST"),
            minter: creator.to_string(),
            collection_info: CollectionInfo {
                contract_uri: String::from("test"),
                creator: creator.to_string(),
                royalties: Some(RoyaltyInfo {
                    address: creator.to_string(),
                    royalty_rate: percent(10),
                }),
            },
        },
    }
}

/// The address of a new contract, as the host encodes it in its report.
fn instantiate_data(address: &str) -> Vec<u8> {
    let mut data = vec![0x0a, address.len() as u8];
    data.extend_from_slice(address.as_bytes());
    data
}

/// A host for one sale and its collection: it keeps the balances and the
/// owners of the items, moves the funds attached to an action, carries out
/// the effects of an action that succeeds, and undoes everything when an
/// action or one of its effects fails.
struct App {
    block: BlockInfo,
    balances: BTreeMap<(String, String), u128>,
    sale: Option<SaleState>,
    royalties: Option<RoyaltyInfo>,
    owners: BTreeMap<u64, String>,
}

impl App {
    fn default() -> App {
        App {
            block: BlockInfo { height: 12_345, time: Timestamp { nanos: 1_571_797_419_879_305_533 } },
            balances: BTreeMap::new(),
            sale: None,
            royalties: None,
            owners: BTreeMap::new(),
        }
    }

    fn env(&self) -> Env {
        Env { block: self.block, contract: ContractInfo { address: SALE.to_string() } }
    }

    fn mint_coins(&mut self, to: &str, funds: &[Coin]) {
        for c in funds {
            *self.balances.entry((to.to_string(), c.denom.clone())).or_insert(0) += c.amount;
        }
    }

    fn query_all_balances(&self, of: &str) -> Vec<Coin> {
        self.balances
            .iter()
            .filter(|((who, _), amount)| who == of && **amount > 0)
            .map(|((_, denom), amount)| coin(*amount, denom))
            .collect()
    }

    fn send(&mut self, from: &str, to: &str, funds: &[Coin]) -> Result<(), String> {
        for c in funds {
            let held = self.balances.entry((from.to_string(), c.denom.clone())).or_insert(0);
            if *held < c.amount {
                return Err(format!("{} holds {}{} and cannot pay {}", from, held, c.denom, c.amount));
            }
            *held -= c.amount;
            *self.balances.entry((to.to_string(), c.denom.clone())).or_insert(0) += c.amount;
        }
        Ok(())
    }

    fn instantiate_contract(&mut self, sender: &str, msg: InstantiateMsg) -> Result<(), SaleError> {
        let info = MessageInfo { sender: sender.to_string(), funds: vec![] };
        let (mut state, res) = instantiate(&self.env(), &info, msg)?;
        assert_eq!(res.messages.len(), 1);
        let sub = &res.messages[0];
        assert_eq!(sub.reply_on, ReplyOn::Success);
        match &sub.msg {
            SaleMsg::InstantiateCollection { msg, .. } => {
                assert_eq!(msg.minter, SALE);
                self.royalties = match &msg.collection_info.royalties {
                    Some(r) => Some(RoyaltyInfo { address: r.address.clone(), royalty_rate: r.royalty_rate }),
                    None => None,
                };
            }
            other => panic!("{:?}", other),
        }
        reply(&mut state, Reply { id: sub.id, result: Ok(Some(instantiate_data(COLLECTION))) })?;
        self.sale = Some(state);
        Ok(())
    }

    fn royalty_query(&self) -> RoyaltyQuery {
        RoyaltyQuery::Info(match &self.royalties {
            Some(r) => Some(RoyaltyInfo { address: r.address.clone(), royalty_rate: r.royalty_rate }),
            None => None,
        })
    }

    fn execute_contract(&mut self, sender: &str, msg: ExecuteMsg, funds: &[Coin]) -> Result<(), String> {
        let balances = self.balances.clone();
        let owners = self.owners.clone();
        let done = self.run(sender, msg, funds);
        if done.is_err() {
            self.balances = balances;
            self.owners = owners;
        }
        done
    }

    fn run(&mut self, sender: &str, msg: ExecuteMsg, funds: &[Coin]) -> Result<(), String> {
        self.send(sender, SALE, funds)?;
        let info = MessageInfo { sender: sender.to_string(), funds: funds.to_vec() };
        let held = self.owners.values().filter(|owner| owner.as_str() == sender).count() as u64;
        let royalty = self.royalty_query();
        let env = self.env();
        let mut state = self.sale.take().unwrap();
        let res = execute(&mut state, &env, &info, msg, &royalty, held);
        self.sale = Some(state);
        let res = res.map_err(|e| format!("{:?}", e))?;
        for sub in res.messages {
            match sub.msg {
                SaleMsg::Mint { contract_addr, token_id, owner, .. } => {
                    assert_eq!(contract_addr, COLLECTION);
                    if self.owners.insert(token_id, owner).is_some() {
                        return Err("token_id already claimed".to_string());
                    }
                }
                SaleMsg::Send { to_address, amount } => self.send(SALE, &to_address, &amount)?,
                other => panic!("{:?}", other),
            }
        }
        Ok(())
    }

    fn owner_of(&self, token_id: &str) -> String {
        self.owners[&token_id.parse::<u64>().unwrap()].clone()
    }

    fn sale(&self) -> &SaleState {
        self.sale.as_ref().unwrap()
    }
}

fn mock_app() -> App {
    App::default()
}

fn setup_sale_contract(router: &mut App, creator: &str, num_tokens: u64) {
    router.instantiate_contract(creator, instantiate_msg(creator, num_tokens, num_tokens as usize)).unwrap();
    let config = query_config(router.sale()).unwrap();
    assert_eq!(config.sg721_address, COLLECTION);
}

fn setup_accounts(router: &mut App) -> (String, String) {
    let buyer = String::from("buyer");
    let creator = String::from("creator");
    let funds = coins(INITIAL_BALANCE, DENOM);
    router.mint_coins(&creator, &funds);
    router.mint_coins(&buyer, &funds);
    assert_eq!(router.query_all_balances(&creator), funds);
    assert_eq!(router.query_all_balances(&buyer), funds);
    (creator, buyer)
}

#[test]
fn initialization() {
    let env = Env {
        block: BlockInfo { height: 12_345, time: Timestamp { nanos: 1_571_797_419_879_305_533 } },
        contract: ContractInfo { address: SALE.to_string() },
    };
    // Num tokens does not match token_uris length and should error
    let info = MessageInfo { sender: "creator".to_string(), funds: coins(INITIAL_BALANCE, DENOM) };
    let msg = instantiate_msg("creator", 100, 1);
    let res = instantiate(&env, &info, msg);
    assert!(res.is_err());
    assert_eq!(res.unwrap_err(), SaleError::TokenURIsListInvalidNumber);
}

#[test]
fn happy_path() {
    let mut router = mock_app();
    let (creator, buyer) = setup_accounts(&mut router);
    let num_tokens: u64 = 1;
    setup_sale_contract(&mut router, &creator, num_tokens);

    // Succeeds if funds are sent
    let res = router.execute_contract(&buyer, ExecuteMsg::Mint {}, &coins(PRICE, DENOM));
    assert!(res.is_ok());

    // Balances are correct
    assert_eq!(router.query_all_balances(&creator), coins(INITIAL_BALANCE + PRICE, DENOM));
    assert_eq!(router.query_all_balances(&buyer), coins(INITIAL_BALANCE - PRICE, DENOM));

    // Check NFT is transferred
    assert_eq!(router.owner_of("0"), buyer);

    // Errors if sold out
    let res = router.execute_contract(&buyer, ExecuteMsg::Mint {}, &coins(PRICE, DENOM));
    assert!(res.is_err());
}

#[test]
fn whitelist_access_len_add_remove_expiration() {
    let mut router = mock_app();
    let (creator, buyer) = setup_accounts(&mut router);
    let num_tokens: u64 = 1;
    setup_sale_contract(&mut router, &creator, num_tokens);
    let expiration_time = Timestamp::from_seconds(100000 + 10).unwrap();

    // set block info
    router.block.time = Timestamp::from_seconds(100000).unwrap();

    // set whitelist_expiration fails if not admin
    let whitelist_msg = ExecuteMsg::WhitelistExpiration(Expiration::Never);
    let res = router.execute_contract(&buyer, whitelist_msg, &coins(PRICE, DENOM));
    assert!(res.is_err());

    // enable whitelist
    let whitelist_msg = ExecuteMsg::WhitelistExpiration(Expiration::AtTime(expiration_time));
    let res = router.execute_contract(&creator, whitelist_msg, &coins(PRICE, DENOM));
    assert!(res.is_ok());

    // mint fails, buyer is not on whitelist
    let res = router.execute_contract(&buyer, ExecuteMsg::Mint {}, &coins(PRICE, DENOM));
    assert!(res.is_err());

    // fails, add too many whitelist addresses
    let over_max_limit_whitelist_addrs = vec!["addr".to_string(); MAX_WHITELIST_ADDRS_LENGTH as usize + 10];
    let add_whitelist_msg = UpdateWhitelistMsg {
        add_addresses: Some(over_max_limit_whitelist_addrs),
        remove_addresses: None,
    };
    let res = router.execute_contract(&creator, ExecuteMsg::UpdateWhitelist(add_whitelist_msg), &coins(PRICE, DENOM));
    assert!(res.is_err());

    // add buyer to whitelist
    let add_whitelist_msg = UpdateWhitelistMsg { add_addresses: Some(vec![buyer.clone()]), remove_addresses: None };
    let res = router.execute_contract(&creator, ExecuteMsg::UpdateWhitelist(add_whitelist_msg), &coins(PRICE, DENOM));
    assert!(res.is_ok());

    // query whitelist, confirm buyer on allowlist
    let allowlist = query_whitelist_addresses(router.sale());
    assert!(allowlist.addresses.contains(&"buyer".to_string()));

    // query whitelist_expiration, confirm not expired
    let expiration = query_whitelist_expiration(router.sale()).unwrap();
    assert_eq!(
        "expiration time: ".to_owned() + &cosmwasm_std::Timestamp::from_seconds(100000 + 10).to_string(),
        expiration.expiration_time
    );
    assert_eq!(expiration.expiration_time, "expiration time: 100010.000000000");

    // mint succeeds
    let res = router.execute_contract(&buyer, ExecuteMsg::Mint {}, &coins(PRICE, DENOM));
    assert!(res.is_ok());

    // remove buyer from whitelist
    let remove_whitelist_msg = UpdateWhitelistMsg { add_addresses: None, remove_addresses: Some(vec![buyer.clone()]) };
    let res = router.execute_contract(&creator, ExecuteMsg::UpdateWhitelist(remove_whitelist_msg), &coins(PRICE, DENOM));
    assert!(res.is_ok());

    // mint fails
    let res = router.execute_contract(&buyer, ExecuteMsg::Mint {}, &coins(PRICE, DENOM));
    assert!(res.is_err());
}

#[test]
fn before_start_time() {
    let mut router = mock_app();
    let (creator, buyer) = setup_accounts(&mut router);
    let num_tokens: u64 = 1;
    setup_sale_contract(&mut router, &creator, num_tokens);
    let start_time = Timestamp::from_seconds(100000 + 10).unwrap();

    // set block info
    router.block.time = Timestamp::from_seconds(100000).unwrap();

    // set start_time fails if not admin
    let start_time_msg = ExecuteMsg::UpdateStartTime(Expiration::Never);
    let res = router.execute_contract(&buyer, start_time_msg, &coins(PRICE, DENOM));
    assert!(res.is_err());

    // if block before start_time, throw error
    let start_time_msg = ExecuteMsg::UpdateStartTime(Expiration::AtTime(start_time));
    let res = router.execute_contract(&creator, start_time_msg, &coins(PRICE, DENOM));
    assert!(res.is_ok());

    let res = router.execute_contract(&buyer, ExecuteMsg::Mint {}, &coins(PRICE, DENOM));
    assert!(res.is_err());

    // query start_time, confirm expired
    let start_time_response = query_start_time(router.sale()).unwrap();
    assert_eq!(
        "expiration time: ".to_owned() + &cosmwasm_std::Timestamp::from_seconds(100000 + 10).to_string(),
        start_time_response.start_time
    );

    // set block forward, after start time. mint succeeds
    router.block.time = start_time.plus_seconds(10).unwrap();

    // mint succeeds
    let res = router.execute_contract(&buyer, ExecuteMsg::Mint {}, &coins(PRICE, DENOM));
    assert!(res.is_ok());
}

#[test]
fn per_address_limit() {
    let mut router = mock_app();
    let (creator, buyer) = setup_accounts(&mut router);
    let num_tokens = 2;
    setup_sale_contract(&mut router, &creator, num_tokens);

    // set limit, check unauthorized
    let per_address_limit_msg = ExecuteMsg::UpdatePerAddressLimit { per_address_limit: 30 };
    let res = router.execute_contract(&buyer, per_address_limit_msg, &coins(PRICE, DENOM));
    assert!(res.is_err());

    // set limit, invalid limit over max
    let per_address_limit_msg = ExecuteMsg::UpdatePerAddressLimit { per_address_limit: 100 };
    let res = router.execute_contract(&creator, per_address_limit_msg, &coins(PRICE, DENOM));
    assert!(res.is_err());

    // set limit, mint fails, over max
    let per_address_limit_msg = ExecuteMsg::UpdatePerAddressLimit { per_address_limit: 1 };
    let res = router.execute_contract(&creator, per_address_limit_msg, &coins(PRICE, DENOM));
    assert!(res.is_ok());

    // first mint succeeds
    let res = router.execute_contract(&buyer, ExecuteMsg::Mint {}, &coins(PRICE, DENOM));
    assert!(res.is_ok());

    // second mint fails from exceeding per address limit
    let res = router.execute_contract(&buyer, ExecuteMsg::Mint {}, &coins(PRICE, DENOM));
    assert!(res.is_err());
    assert_eq!(res.unwrap_err(), "MaxPerAddressLimitExceeded");
}

#[test]
fn unhappy_path() {
    let mut router = mock_app();
    let (creator, buyer) = setup_accounts(&mut router);
    let num_tokens: u64 = 1;
    setup_sale_contract(&mut router, &creator, num_tokens);

    // Fails if too little funds are sent
    let res = router.execute_contract(&buyer, ExecuteMsg::Mint {}, &coins(1, DENOM));
    assert!(res.is_err());
    assert_eq!(res.unwrap_err(), "NotEnoughFunds");

    // Fails if too many funds are sent
    let res = router.execute_contract(&buyer, ExecuteMsg::Mint {}, &coins(11111, DENOM));
    assert!(res.is_err());

    // Fails wrong denom is sent
    let res = router.execute_contract(&buyer, ExecuteMsg::Mint {}, &coins(PRICE, "uatom"));
    assert!(res.is_err());
    assert_eq!(router.query_all_balances(&buyer), coins(INITIAL_BALANCE, DENOM));
}

fn ready(num_tokens: u64) -> SaleState {
    let env = Env {
        block: BlockInfo { height: 10, time: Timestamp { nanos: 1_000 } },
        contract: ContractInfo { address: SALE.to_string() },
    };
    let info = MessageInfo { sender: "creator".to_string(), funds: vec![] };
    let (mut state, _) = instantiate(&env, &info, instantiate_msg("creator", num_tokens, num_tokens as usize)).unwrap();
    keep_collection(&mut state, 1, Some(COLLECTION.to_string())).unwrap();
    state
}

fn at(height: u64, nanos: u64) -> Env {
    Env { block: BlockInfo { height, time: Timestamp { nanos } }, contract: ContractInfo { address: SALE.to_string() } }
}

fn buyer(funds: Vec<Coin>) -> MessageInfo {
    MessageInfo { sender: "buyer".to_string(), funds }
}

fn pay(to: &str, amount: u128) -> SaleSubMsg {
    SaleSubMsg {
        id: 0,
        msg: SaleMsg::Send { to_address: to.to_string(), amount: coins(amount, DENOM) },
        reply_on: ReplyOn::Never,
    }
}

#[test]
fn setting_up_a_sale_checks_its_terms() {
    let env = at(10, 1_000);
    let info = MessageInfo { sender: "creator".to_string(), funds: vec![] };
    assert_eq!(
        instantiate(&env, &info, instantiate_msg("creator", 15_001, 15_001)).unwrap_err(),
        SaleError::MaxTokenURIsLengthExceeded
    );
    assert!(instantiate(&env, &info, instantiate_msg("creator", 15_000, 15_000)).is_ok());
    let mut msg = instantiate_msg("creator", 2, 2);
    msg.per_address_limit = Some(31);
    assert_eq!(instantiate(&env, &info, msg).unwrap_err(), SaleError::InvalidPerAddressLimit);
    let mut msg = instantiate_msg("creator", 2, 2);
    msg.whitelist_addresses = Some(vec!["a".to_string(); 15_000]);
    assert_eq!(instantiate(&env, &info, msg).unwrap_err(), SaleError::MaxWhitelistAddressLengthExceeded);

    let mut msg = instantiate_msg("creator", 2, 2);
    msg.per_address_limit = Some(30);
    msg.whitelist_addresses = Some(vec!["b".to_string(), "a".to_string(), "b".to_string()]);
    msg.start_time = Some(Expiration::AtHeight(20));
    let (state, res) = instantiate(&env, &info, msg).unwrap();
    assert_eq!(state.config.admin, "creator");
    assert_eq!(state.config.per_address_limit, Some(30));
    assert_eq!(state.config.start_time, Some(Expiration::AtHeight(20)));
    assert_eq!(state.config.unit_price, coin(PRICE, DENOM));
    assert_eq!(state.token_id_index, 0);
    assert_eq!(state.sg721_address, None);
    assert_eq!(state.num_whitelist_addrs, Some(3));
    assert_eq!(state.whitelist.list(), vec!["a".to_string(), "b".to_string()]);
    assert_eq!(
        res.attributes,
        vec![
            Attribute { key: "method".to_string(), value: "instantiate".to_string() },
            Attribute { key: "admin".to_string(), value: "creator".to_string() },
        ]
    );
    match &res.messages[0] {
        SaleSubMsg { id: 1, msg: SaleMsg::InstantiateCollection { code_id: 1, msg, label }, reply_on: ReplyOn::Success } => {
            assert_eq!(label, "Instantiate fixed price NFT contract");
            assert_eq!(msg.minter, SALE);
            assert_eq!(msg.name, "TEST");
            assert_eq!(msg.collection_info.creator, "creator");
        }
        other => panic!("{:?}", other),
    }
    assert_eq!(query_config(&state).unwrap_err(), SaleError::Std("cosmwasm_std::addresses::Addr not found".to_string()));

    let mut msg = instantiate_msg("creator", 1, 1);
    msg.whitelist_addresses = None;
    let (mut state, _) = instantiate(&env, &info, msg).unwrap();
    assert_eq!(state.num_whitelist_addrs, None);
    let change = UpdateWhitelistMsg { add_addresses: Some(vec!["a".to_string()]), remove_addresses: None };
    assert_eq!(
        execute_update_whitelist(&mut state, &env, &info, change).unwrap_err(),
        SaleError::Std("u32 not found".to_string())
    );
}

#[test]
fn a_purchase_is_checked_in_order() {
    let none = RoyaltyQuery::Info(None);
    let env = at(10, 1_000);
    let info = MessageInfo { sender: "creator".to_string(), funds: vec![] };
    let (mut state, _) = instantiate(&env, &info, instantiate_msg("creator", 1, 1)).unwrap();
    assert_eq!(
        execute_mint(&mut state, &env, &buyer(coins(PRICE, DENOM)), &none, 0).unwrap_err(),
        SaleError::Std("cosmwasm_std::addresses::Addr not found".to_string())
    );

    let mut state = ready(1);
    state.config.whitelist_expiration = Some(Expiration::AtHeight(11));
    state.config.start_time = Some(Expiration::AtTime(Timestamp { nanos: 2_000 }));
    state.config.per_address_limit = Some(2);
    assert_eq!(execute_mint(&mut state, &env, &buyer(vec![]), &none, 5).unwrap_err(), SaleError::NotWhitelisted);
    let late = at(11, 1_000);
    assert_eq!(execute_mint(&mut state, &late, &buyer(vec![]), &none, 5).unwrap_err(), SaleError::NotEnoughFunds);
    assert_eq!(
        execute_mint(&mut state, &late, &buyer(coins(PRICE - 1, DENOM)), &none, 5).unwrap_err(),
        SaleError::NotEnoughFunds
    );
    assert_eq!(
        execute_mint(&mut state, &late, &buyer(vec![coin(1, DENOM), coin(PRICE, DENOM)]), &none, 5).unwrap_err(),
        SaleError::NotEnoughFunds
    );
    assert_eq!(
        execute_mint(&mut state, &late, &buyer(coins(PRICE, DENOM)), &none, 5).unwrap_err(),
        SaleError::BeforeMintStartTime
    );
    assert_eq!(
        execute_mint(&mut state, &at(11, 1_999), &buyer(coins(PRICE, DENOM)), &none, 5).unwrap_err(),
        SaleError::BeforeMintStartTime
    );
    let open = at(11, 2_000);
    assert_eq!(
        execute_mint(&mut state, &open, &buyer(coins(PRICE, DENOM)), &none, 2).unwrap_err(),
        SaleError::MaxPerAddressLimitExceeded
    );
    assert_eq!(state.token_id_index, 0);
    let res = execute_mint(&mut state, &open, &buyer(coins(PRICE + 5, DENOM)), &none, 1).unwrap();
    assert_eq!(
        res,
        SaleResponse {
            messages: vec![SaleSubMsg {
                id: 0,
                msg: SaleMsg::Mint {
                    contract_addr: COLLECTION.to_string(),
                    token_id: 0,
                    owner: "buyer".to_string(),
                    token_uri: "https://stargaze.zone/logo.png".to_string(),
                },
                reply_on: ReplyOn::Never,
            }],
            attributes: vec![],
        }
    );
    assert_eq!(state.token_id_index, 1);
    assert_eq!(
        execute_mint(&mut state, &open, &buyer(coins(PRICE, DENOM)), &none, 1).unwrap_err(),
        SaleError::Std("alloc::string::String not found".to_string())
    );
    state.token_uris.push("https://stargaze.zone/logo.png".to_string());
    assert_eq!(execute_mint(&mut state, &open, &buyer(coins(PRICE, DENOM)), &none, 1).unwrap_err(), SaleError::SoldOut);
    assert_eq!(state.token_id_index, 1);
}

#[test]
fn a_purchase_is_shared_out() {
    let env = at(10, 1_000);
    let royalty = |p: u128| {
        RoyaltyQuery::Info(Some(RoyaltyInfo { address: "artist".to_string(), royalty_rate: percent(p) }))
    };
    let mut state = ready(10);
    state.config.unit_price = coin(999, DENOM);
    let res = execute_mint(&mut state, &env, &buyer(coins(999, DENOM)), &royalty(10), 0).unwrap();
    assert_eq!(res.messages[1..], [pay("artist", 99), pay("creator", 899)]);
    let res = execute_mint(&mut state, &env, &buyer(coins(999, DENOM)), &royalty(0), 0).unwrap();
    assert_eq!(res.messages[1..], [pay("artist", 0), pay("creator", 999)]);
    let res = execute_mint(&mut state, &env, &buyer(coins(999, DENOM)), &royalty(100), 0).unwrap();
    assert_eq!(res.messages[1..], [pay("artist", 999), pay("creator", 0)]);
    let res = execute_mint(&mut state, &env, &buyer(coins(1_000, DENOM)), &royalty(10), 0).unwrap();
    assert_eq!(res.messages.len(), 1);
    let res = execute_mint(
        &mut state,
        &env,
        &buyer(vec![coin(5, "uatom"), coin(999, DENOM)]),
        &royalty(10),
        0,
    )
    .unwrap();
    assert_eq!(res.messages[1..], [pay("artist", 99), pay("creator", 899)]);
    let res = execute_mint(&mut state, &env, &buyer(coins(999, DENOM)), &RoyaltyQuery::Info(None), 0).unwrap();
    assert_eq!(res.messages.len(), 1);
    for failed in [RoyaltyQuery::Unsupported, RoyaltyQuery::Failed("no royalties".to_string())] {
        let funds = vec![coin(5, "uatom"), coin(1_000, DENOM)];
        let res = execute_mint(&mut state, &env, &buyer(funds.clone()), &failed, 0).unwrap();
        assert_eq!(
            res.messages[1..],
            [SaleSubMsg {
                id: 0,
                msg: SaleMsg::Send { to_address: "creator".to_string(), amount: funds },
                reply_on: ReplyOn::Never,
            }]
        );
    }
    assert_eq!(state.token_id_index, 8);
    assert!(holds_exactly(&coins(999, DENOM), &coin(999, DENOM)));
    assert!(!holds_exactly(&coins(999, DENOM), &coin(998, DENOM)));
    assert!(!holds_exactly(&coins(999, "uatom"), &coin(999, DENOM)));
    assert!(!holds_exactly(&vec![], &coin(999, DENOM)));
}

#[test]
fn the_whitelist_is_changed_by_the_admin() {
    let env = at(10, 1_000);
    let admin = MessageInfo { sender: "creator".to_string(), funds: vec![] };
    let mut state = ready(1);
    let change = |add: Option<Vec<&str>>, remove: Option<Vec<&str>>| UpdateWhitelistMsg {
        add_addresses: add.map(|l| l.into_iter().map(String::from).collect()),
        remove_addresses: remove.map(|l| l.into_iter().map(String::from).collect()),
    };
    assert_eq!(
        execute_update_whitelist(&mut state, &env, &buyer(vec![]), change(Some(vec!["buyer"]), None)).unwrap_err(),
        SaleError::Unauthorized
    );
    let res = execute_update_whitelist(&mut state, &env, &admin, change(Some(vec!["carol", "alice"]), Some(vec!["VIPcollector"])))
        .unwrap();
    assert_eq!(
        res,
        SaleResponse {
            messages: vec![],
            attributes: vec![Attribute { key: "method".to_string(), value: "updated_whitelist_addresses".to_string() }],
        }
    );
    assert_eq!(query_whitelist_addresses(&state).addresses, vec!["alice".to_string(), "carol".to_string()]);
    assert_eq!(state.num_whitelist_addrs, Some(2));
    execute_update_whitelist(&mut state, &env, &admin, change(Some(vec!["alice", "bob"]), Some(vec!["bob"]))).unwrap();
    assert_eq!(query_whitelist_addresses(&state).addresses, vec!["alice".to_string(), "carol".to_string()]);
    assert_eq!(state.num_whitelist_addrs, Some(3));
    let many: Vec<String> = (0..14_996).map(|i| format!("addr{}", i)).collect();
    execute_update_whitelist(
        &mut state,
        &env,
        &admin,
        UpdateWhitelistMsg { add_addresses: Some(many), remove_addresses: None },
    )
    .unwrap();
    assert_eq!(state.num_whitelist_addrs, Some(14_999));
    assert_eq!(
        execute_update_whitelist(&mut state, &env, &admin, change(Some(vec!["zed"]), None)).unwrap_err(),
        SaleError::MaxWhitelistAddressLengthExceeded
    );
    assert!(!state.whitelist.has(&"zed".to_string()));
    assert!(execute_update_whitelist(&mut state, &env, &admin, change(Some(vec![]), None)).is_ok());
    assert_eq!(state.num_whitelist_addrs, Some(14_999));
    execute_update_whitelist(&mut state, &env, &admin, change(None, Some(vec!["alice"]))).unwrap();
    assert_eq!(state.num_whitelist_addrs, Some(14_998));
    assert!(!state.whitelist.has(&"alice".to_string()));
    assert!(state.whitelist.has(&"carol".to_string()));
}

#[test]
fn addresses_are_kept_once_and_in_order() {
    let mut set = AddressSet::new();
    for a in ["b", "a", "c", "a", "ab"] {
        set.insert(a.to_string());
    }
    assert_eq!(set.len(), 4);
    assert_eq!(set.list(), vec!["a".to_string(), "ab".to_string(), "b".to_string(), "c".to_string()]);
    assert!(set.has(&"ab".to_string()));
    assert!(!set.has(&"d".to_string()));
    set.remove(&"ab".to_string());
    set.remove(&"d".to_string());
    assert_eq!(set.list(), vec!["a".to_string(), "b".to_string(), "c".to_string()]);
}

#[test]
fn an_expiration_is_reached_by_the_block() {
    let block = BlockInfo { height: 100, time: Timestamp { nanos: 5_000_000_000 } };
    assert!(Expiration::AtHeight(100).is_expired(&block));
    assert!(Expiration::AtHeight(99).is_expired(&block));
    assert!(!Expiration::AtHeight(101).is_expired(&block));
    assert!(Expiration::AtTime(Timestamp { nanos: 5_000_000_000 }).is_expired(&block));
    assert!(Expiration::AtTime(Timestamp { nanos: 4_999_999_999 }).is_expired(&block));
    assert!(!Expiration::AtTime(Timestamp { nanos: 5_000_000_001 }).is_expired(&block));
    assert!(!Expiration::Never.is_expired(&block));
    assert_eq!(Expiration::AtHeight(100).to_string(), "expiration height: 100");
    assert_eq!(Expiration::AtTime(Timestamp { nanos: 5_000_000_001 }).to_string(), "expiration time: 5.000000001");
    assert_eq!(Expiration::Never.to_string(), "expiration: never");
}

#[test]
fn the_terms_are_changed_by_the_admin() {
    let env = at(10, 1_000);
    let admin = MessageInfo { sender: "creator".to_string(), funds: vec![] };
    let none = RoyaltyQuery::Info(None);
    let mut state = ready(1);
    let method = |name: &str| SaleResponse {
        messages: vec![],
        attributes: vec![Attribute { key: "method".to_string(), value: name.to_string() }],
    };
    assert_eq!(
        execute(&mut state, &env, &admin, ExecuteMsg::WhitelistExpiration(Expiration::AtHeight(5)), &none, 0).unwrap(),
        method("updated_whitelist_expiration")
    );
    assert_eq!(
        execute(&mut state, &env, &admin, ExecuteMsg::UpdateStartTime(Expiration::Never), &none, 0).unwrap(),
        method("update_start_time")
    );
    assert_eq!(
        execute(&mut state, &env, &admin, ExecuteMsg::UpdatePerAddressLimit { per_address_limit: 30 }, &none, 0).unwrap(),
        method("update_per_address_limit")
    );
    assert_eq!(
        execute(&mut state, &env, &admin, ExecuteMsg::UpdatePerAddressLimit { per_address_limit: 31 }, &none, 0)
            .unwrap_err(),
        SaleError::InvalidPerAddressLimit
    );
    assert_eq!(state.config.whitelist_expiration, Some(Expiration::AtHeight(5)));
    assert_eq!(state.config.start_time, Some(Expiration::Never));
    assert_eq!(state.config.per_address_limit, Some(30));
    for msg in [
        ExecuteMsg::WhitelistExpiration(Expiration::Never),
        ExecuteMsg::UpdateStartTime(Expiration::AtHeight(1)),
        ExecuteMsg::UpdatePerAddressLimit { per_address_limit: 1 },
    ] {
        assert_eq!(execute(&mut state, &env, &buyer(vec![]), msg, &none, 0).unwrap_err(), SaleError::Unauthorized);
    }
    assert_eq!(state.config.per_address_limit, Some(30));
    // The start time never comes.
    assert_eq!(
        execute(&mut state, &env, &buyer(coins(PRICE, DENOM)), ExecuteMsg::Mint {}, &none, 0).unwrap_err(),
        SaleError::BeforeMintStartTime
    );
}

#[test]
fn queries_read_the_sale() {
    let mut state = ready(3);
    let config = query_config(&state).unwrap();
    assert_eq!(config.admin, "creator");
    assert_eq!(config.sg721_address, COLLECTION);
    assert_eq!(config.sg721_code_id, 1);
    assert_eq!(config.num_tokens, 3);
    assert_eq!(config.unit_price, coin(PRICE, DENOM));
    assert_eq!(config.unused_token_id, 0);
    assert_eq!(config.per_address_limit, None);
    assert_eq!(
        query_whitelist_expiration(&state).unwrap_err(),
        SaleError::Std("whitelist expiration not found".to_string())
    );
    assert_eq!(query_start_time(&state).unwrap_err(), SaleError::Std("start time not found".to_string()));
    state.config.start_time = Some(Expiration::AtHeight(7));
    state.config.whitelist_expiration = Some(Expiration::Never);
    match query(&state, QueryMsg::GetConfig {}) {
        Ok(QueryResponse::Config(c)) => assert_eq!(c, config),
        other => panic!("{:?}", other),
    }
    match query(&state, QueryMsg::GetWhitelistAddresses {}) {
        Ok(QueryResponse::WhitelistAddresses(w)) => assert_eq!(w.addresses, vec!["VIPcollector".to_string()]),
        other => panic!("{:?}", other),
    }
    match query(&state, QueryMsg::GetWhitelistExpiration {}) {
        Ok(QueryResponse::WhitelistExpiration(w)) => assert_eq!(w.expiration_time, "expiration: never"),
        other => panic!("{:?}", other),
    }
    match query(&state, QueryMsg::GetStartTime {}) {
        Ok(QueryResponse::StartTime(t)) => assert_eq!(t.start_time, "expiration height: 7"),
        other => panic!("{:?}", other),
    }
}

#[test]
fn the_report_on_the_collection_is_read() {
    let env = at(10, 1_000);
    let info = MessageInfo { sender: "creator".to_string(), funds: vec![] };
    let (mut state, _) = instantiate(&env, &info, instantiate_msg("creator", 1, 1)).unwrap();
    assert_eq!(
        reply(&mut state, Reply { id: 2, result: Ok(Some(instantiate_data(COLLECTION))) }).unwrap_err(),
        SaleError::InvalidReplyID
    );
    for result in [Ok(None), Err("out of gas".to_string()), Ok(Some(vec![0x0a, 0x09, b'c'])), Ok(Some(vec![0x12, 0x01, b'c']))] {
        assert_eq!(reply(&mut state, Reply { id: 1, result }).unwrap_err(), SaleError::InstantiateSg721Error);
    }
    assert_eq!(state.sg721_address, None);
    let mut data = instantiate_data(COLLECTION);
    data.extend_from_slice(&[0x12, 0x02, 0xca, 0xfe]);
    assert_eq!(
        reply(&mut state, Reply { id: 1, result: Ok(Some(data)) }).unwrap(),
        SaleResponse { messages: vec![], attributes: vec![] }
    );
    assert_eq!(state.sg721_address, Some(COLLECTION.to_string()));
    assert_eq!(keep_collection(&mut state, 1, None).unwrap_err(), SaleError::InstantiateSg721Error);
    assert_eq!(keep_collection(&mut state, 0, Some("x".to_string())).unwrap_err(), SaleError::InvalidReplyID);
    keep_collection(&mut state, 1, Some("contract7".to_string())).unwrap();
    assert_eq!(state.sg721_address, Some("contract7".to_string()));
}
