use marketplace::execute::{execute, instantiate};
use marketplace::expiry::ExpiryRange;
use marketplace::market::State;
use marketplace::msg::{AskInfo, Cw721ReceiveMsg, ExecuteMsg, InstantiateMsg};
use marketplace::query::{query_all_bids, query_ask, query_asks, query_bids};
use marketplace::response::Msg;
use marketplace::settlement::RoyaltyQuery;
use marketplace::state::SaleType;
use marketplace::types::{BlockInfo, Coin, ContractInfo, Env, MessageInfo, Timestamp};

fn mock_env() -> Env {
    Env {
        block: BlockInfo { height: 12_345, time: Timestamp { nanos: 1_571_797_419_879_305_533 } },
        contract: ContractInfo { address: "cosmos2contract".to_string() },
    }
}

fn mock_info(sender: &str, funds: &[Coin]) -> MessageInfo {
    MessageInfo {
        sender: sender.to_string(),
        funds: funds.iter().cloned().collect(),
    }
}

fn instantiate_msg() -> InstantiateMsg {
    InstantiateMsg {
        trading_fee_bps: 25,
        ask_expiry: ExpiryRange { min: 100, max: 500 },
        bid_expiry: ExpiryRange { min: 100, max: 500 },
        operators: vec![],
        sale_hook: Some("hook".to_string()),
        min_price: 10,
        listing_fee: 0,
        create_collection_address: "create_collection_address".to_string(),
    }
}

fn setup_contract() -> State {
    let info = mock_info("owner", &[]);
    let (state, res) = instantiate(&mock_env(), &info, instantiate_msg()).unwrap();
    assert_eq!(res.messages.len(), 0);
    state
}

fn sell_msg(env: &Env, collection: &str, token_id: &str, seller: &str, expires: u64) -> ExecuteMsg {
    let ask_info = AskInfo {
        sale_type: SaleType::Auction,
        collection: collection.to_string(),
        token_id: token_id.to_string(),
        price: Coin { denom: "uheart".to_string(), amount: 300 },
        funds_recipient: None,
        expires: env.block.time.plus_seconds(expires).unwrap(),
    };
    ExecuteMsg::ReceiveNft(Cw721ReceiveMsg {
        sender: seller.to_string(),
        token_id: token_id.to_string(),
        msg: ask_info,
    })
}

fn bid_msg(collection: &str, token_id: &str) -> ExecuteMsg {
    ExecuteMsg::SetBid { collection: collection.to_string(), token_id: token_id.to_string() }
}

fn uheart(amount: u128) -> Coin {
    Coin { denom: "uheart".to_string(), amount }
}

#[test]
fn init_contract() {
    let info = mock_info("owner", &[]);
    let (_state, res) = instantiate(&mock_env(), &info, instantiate_msg()).unwrap();
    assert_eq!(0, res.messages.len());
}

#[test]
fn test_ask() {
    let env = mock_env();
    let mut state = setup_contract();
    let none = RoyaltyQuery::Info(None);

    let info = mock_info("collection1", &[]);
    execute(&mut state, &env, &info, sell_msg(&env, "collection1", "Test.1", "seller1", 300), &none)
        .unwrap();

    let info = mock_info("bider1", &[uheart(350)]);
    execute(&mut state, &env, &info, bid_msg("collection1", "Test.1"), &none).unwrap();

    let info = mock_info("bider2", &[uheart(400)]);
    execute(&mut state, &env, &info, bid_msg("collection1", "Test.1"), &none).unwrap();

    let info = mock_info("bider3", &[uheart(450)]);
    execute(&mut state, &env, &info, bid_msg("collection1", "Test.1"), &none).unwrap();

    let bids = query_bids(
        &state,
        &"collection1".to_string(),
        &"Test.1".to_string(),
        &None,
        Some(20),
    );
    assert_eq!(bids.bids.len(), 3);

    // Second sale
    let info = mock_info("collection2", &[]);
    execute(&mut state, &env, &info, sell_msg(&env, "collection2", "Test.2", "seller2", 300), &none)
        .unwrap();

    let info = mock_info("bider1", &[uheart(350)]);
    execute(&mut state, &env, &info, bid_msg("collection2", "Test.2"), &none).unwrap();

    // Third sale
    let info = mock_info("collection3", &[]);
    execute(&mut state, &env, &info, sell_msg(&env, "collection3", "Test.3", "seller3", 300), &none)
        .unwrap();

    let info = mock_info("bider1", &[uheart(350)]);
    execute(&mut state, &env, &info, bid_msg("collection3", "Test.3"), &none).unwrap();

    let info = mock_info("bider2", &[uheart(400)]);
    execute(&mut state, &env, &info, bid_msg("collection3", "Test.3"), &none).unwrap();

    let ask_info = query_ask(&state, &"collection1".to_string(), &"Test.1".to_string());
    let ask = ask_info.ask.unwrap();
    println!("collection1 {:?}", ask);
    assert_eq!(ask.max_bid, Some(450));
    assert_eq!(ask.max_bidder, Some("bider3".to_string()));

    let ask_info = query_ask(&state, &"collection2".to_string(), &"Test.2".to_string());
    let ask = ask_info.ask.unwrap();
    println!("collection2 {:?}", ask);
    assert_eq!(ask.max_bid, Some(350));

    let ask_info = query_ask(&state, &"collection3".to_string(), &"Test.3".to_string());
    let ask = ask_info.ask.unwrap();
    println!("collection3 {:?}", ask);
    assert_eq!(ask.max_bid, Some(400));
}

#[test]
fn test_accept_bid_without_bid() {
    let mut env = mock_env();
    let mut state = setup_contract();
    let none = RoyaltyQuery::Info(None);

    let info = mock_info("collection1", &[]);
    execute(&mut state, &env, &info, sell_msg(&env, "collection1", "Test.1", "seller1", 300), &none)
        .unwrap();

    env.block.time = env.block.time.plus_seconds(350).unwrap();

    let info = mock_info("seller1", &[]);
    let msg = ExecuteMsg::AcceptBid {
        collection: "collection1".to_string(),
        token_id: "Test.1".to_string(),
        bidder: "cosmos2contract".to_string(),
    };
    let res = execute(&mut state, &env, &info, msg, &none).unwrap();

    assert_eq!(res.messages.len(), 1);
    assert_eq!(
        res.messages[0].msg,
        Msg::TransferNft {
            contract_addr: "collection1".to_string(),
            recipient: "seller1".to_string(),
            token_id: "Test.1".to_string(),
        }
    );
}

#[test]
fn test_asks_sort_by_expiration() {
    let env = mock_env();
    let mut state = setup_contract();
    let none = RoyaltyQuery::Info(None);

    let info = mock_info("collection1", &[]);
    execute(&mut state, &env, &info, sell_msg(&env, "collection1", "Test.1", "seller1", 150), &none)
        .unwrap();

    let info = mock_info("collection2", &[]);
    execute(&mut state, &env, &info, sell_msg(&env, "collection2", "Test.2", "seller2", 300), &none)
        .unwrap();

    let info = mock_info("collection3", &[]);
    execute(&mut state, &env, &info, sell_msg(&env, "collection3", "Test.3", "seller3", 200), &none)
        .unwrap();

    let asks = query_asks(&state, &"collection1".to_string(), &None, Some(1));
    println!("asks {:?}", asks);
    assert_eq!(asks.asks.len(), 1);
    assert_eq!(asks.asks[0].expires_at, env.block.time.plus_seconds(150).unwrap());
    let asks = query_asks(&state, &"collection3".to_string(), &None, Some(1));
    assert_eq!(asks.asks[0].expires_at, env.block.time.plus_seconds(200).unwrap());
    assert_eq!(state.asks.len(), 3);
}

#[test]
fn test_remove_ask() {
    let env = mock_env();
    let mut state = setup_contract();
    let none = RoyaltyQuery::Info(None);

    let info = mock_info("collection1", &[]);
    execute(&mut state, &env, &info, sell_msg(&env, "collection1", "Test.1", "seller1", 300), &none)
        .unwrap();

    let info = mock_info("bider1", &[uheart(350)]);
    execute(&mut state, &env, &info, bid_msg("collection1", "Test.1"), &none).unwrap();

    let info = mock_info("seller1", &[]);
    let msg = ExecuteMsg::RemoveAsk {
        collection: "collection1".to_string(),
        token_id: "Test.1".to_string(),
    };
    let res = execute(&mut state, &env, &info, msg, &none).unwrap();

    assert_eq!(res.messages.len(), 1);
    assert_eq!(
        res.messages[0].msg,
        Msg::Send {
            to_address: "bider1".to_string(),
            amount: Coin { denom: "uheart".to_string(), amount: 350 },
        }
    );
    assert!(res.messages.iter().all(|m| !matches!(m.msg, Msg::TransferNft { .. })));
    assert!(query_ask(&state, &"collection1".to_string(), &"Test.1".to_string()).ask.is_none());

    let bid = query_bids(&state, &"collection1".to_string(), &"Test.1".to_string(), &None, None);
    println!("bid {:?}", bid);
    assert_eq!(bid.bids.len(), 1);
}

#[test]
fn test_remove_bids() {
    let env = mock_env();
    let mut state = setup_contract();
    let none = RoyaltyQuery::Info(None);

    let info = mock_info("collection1", &[]);
    execute(&mut state, &env, &info, sell_msg(&env, "collection1", "Test.1", "seller1", 300), &none)
        .unwrap();

    let info = mock_info("bider1", &[uheart(350)]);
    execute(&mut state, &env, &info, bid_msg("collection1", "Test.1"), &none).unwrap();

    let info = mock_info("bider2", &[uheart(400)]);
    let res = execute(&mut state, &env, &info, bid_msg("collection1", "Test.1"), &none).unwrap();
    println!("bid message length compare");
    assert_eq!(res.messages.len(), 1);

    let bids = query_bids(&state, &"collection1".to_string(), &"Test.1".to_string(), &None, Some(1));
    println!("bids by pagination {:?}", bids);
    assert_eq!(bids.bids.len(), 1);
    assert_eq!(bids.bids[0].bidder, "bider1");

    let all_bids = query_all_bids(&state, &"collection1".to_string(), &"Test.1".to_string());
    println!("all bids {:?}", all_bids);
    assert_eq!(all_bids.bids.len(), 2);

    let ask = query_ask(&state, &"collection1".to_string(), &"Test.1".to_string());
    println!("{:?}", ask);
    assert_eq!(ask.ask.unwrap().max_bidder, Some("bider2".to_string()));
}
