use marketplace::ask_store::{page_cap, AskStore, DEFAULT_QUERY_LIMIT, MAX_QUERY_LIMIT};
use marketplace::bid_store::{BidStore, CollectionBidStore};
use marketplace::error::{ContractError, ExpiryRangeError, HookError};
use marketplace::expiry::ExpiryRange;
use marketplace::hooks::{
    prepare_ask_hook, prepare_bid_hook, prepare_collection_bid_hook, prepare_sale_hook, Hooks,
};
use marketplace::market::State;
use marketplace::migrate::{
    migrate, migration_step, upgrade_params, ContractVersion, Duration, MigrateStep,
    SudoParamsV015, VersionOrder,
};
use marketplace::msg::{QueryMsg, SudoMsg};
use marketplace::order::{pair_before, string_lt, triple_before};
use marketplace::query::{
    query, query_ask_count, query_asks, query_asks_by_seller, query_bid, query_bids_by_bidder,
    query_collection_bid, query_operators, query_params, QueryResponse,
};
use marketplace::response::{Attribute, HookAction, Msg, ReplyOn};
use marketplace::settlement::Decimal;
use marketplace::state::{Ask, Bid, CollectionBid, SaleType, SudoParams};
use marketplace::sudo::{
    sudo, sudo_add_sale_hook, sudo_remove_ask_hook, sudo_remove_bid_hook,
    sudo_remove_collection_bid_hook, sudo_remove_sale_hook, sudo_update_params,
};
use marketplace::types::{
    clone_opt_string, clone_strings, coin_native, native_denom, BlockInfo, ContractInfo, Env,
    Timestamp, NATIVE_DENOM,
};

fn s(text: &str) -> String {
    text.to_string()
}

fn ask(collection: &str, token_id: &str, seller: &str, price: u128) -> Ask {
    Ask {
        sale_type: SaleType::Auction,
        collection: s(collection),
        token_id: s(token_id),
        seller: s(seller),
        price,
        funds_recipient: None,
        expires_at: Timestamp { nanos: 1_000 },
        is_active: true,
        max_bidder: Some(s("market")),
        max_bid: Some(10),
    }
}

fn bid(collection: &str, token_id: &str, bidder: &str, price: u128) -> Bid {
    Bid { collection: s(collection), token_id: s(token_id), bidder: s(bidder), price }
}

fn params() -> SudoParams {
    SudoParams {
        ask_expiry: ExpiryRange { min: 100, max: 500 },
        bid_expiry: ExpiryRange { min: 100, max: 500 },
        operators: vec![s("operator1")],
        min_price: 10,
        listing_fee: 0,
    }
}

fn env() -> Env {
    Env {
        block: BlockInfo { height: 1, time: Timestamp { nanos: 0 } },
        contract: ContractInfo { address: s("market") },
    }
}

fn keys(asks: &[Ask]) -> Vec<(String, String)> {
    asks.iter().map(|a| (a.collection.clone(), a.token_id.clone())).collect()
}

fn filled() -> AskStore {
    let mut store = AskStore::new();
    for (collection, token_id, seller) in [
        ("c2", "b", "alice"),
        ("c1", "b", "bob"),
        ("c1", "a", "alice"),
        ("c10", "a", "alice"),
        ("c1", "ab", "alice"),
        ("c", "z", "bob"),
    ] {
        store.save(ask(collection, token_id, seller, 300));
    }
    store
}

#[test]
fn identifiers_are_ordered_by_their_bytes() {
    assert!(string_lt(&s(""), &s("a")));
    assert!(string_lt(&s("a"), &s("ab")));
    assert!(string_lt(&s("ab"), &s("b")));
    assert!(string_lt(&s("B"), &s("a")));
    assert!(string_lt(&s("z"), &s("é")));
    assert!(!string_lt(&s("a"), &s("a")));
    assert!(!string_lt(&s("b"), &s("ab")));
    assert!(!string_lt(&s("a"), &s("")));
    assert!(pair_before(&s("c1"), &s("z"), &s("c2"), &s("a")));
    assert!(pair_before(&s("c1"), &s("a"), &s("c1"), &s("b")));
    assert!(!pair_before(&s("c1"), &s("a"), &s("c1"), &s("a")));
    assert!(!pair_before(&s("c2"), &s("a"), &s("c1"), &s("z")));
    assert!(triple_before(&s("c"), &s("t"), &s("a"), &s("c"), &s("t"), &s("b")));
    assert!(triple_before(&s("c"), &s("s"), &s("z"), &s("c"), &s("t"), &s("a")));
    assert!(!triple_before(&s("c"), &s("t"), &s("b"), &s("c"), &s("t"), &s("b")));
    assert!(!triple_before(&s("d"), &s("a"), &s("a"), &s("c"), &s("t"), &s("b")));
}

#[test]
fn asks_are_kept_one_per_key() {
    let mut store = AskStore::new();
    assert_eq!(store.len(), 0);
    assert_eq!(store.load(&s("c1"), &s("a")), None);
    store.save(ask("c1", "a", "alice", 300));
    store.save(ask("c1", "b", "alice", 310));
    store.save(ask("c1", "a", "bob", 320));
    assert_eq!(store.len(), 2);
    assert_eq!(store.load(&s("c1"), &s("a")), Some(ask("c1", "a", "bob", 320)));
    assert!(store.has(&s("c1"), &s("b")));
    assert!(!store.has(&s("c1"), &s("c")));
    store.remove(&s("c1"), &s("c"));
    assert_eq!(store.len(), 2);
    store.remove(&s("c1"), &s("a"));
    assert_eq!(store.len(), 1);
    assert_eq!(store.load(&s("c1"), &s("a")), None);
    assert_eq!(store.load(&s("c1"), &s("b")), Some(ask("c1", "b", "alice", 310)));
}

#[test]
fn asks_of_a_collection_come_in_item_order() {
    let store = filled();
    let page = store.asks_by_collection(&s("c1"), &None, None);
    assert_eq!(keys(&page), vec![(s("c1"), s("a")), (s("c1"), s("ab")), (s("c1"), s("b"))]);
    let page = store.asks_by_collection(&s("c1"), &Some(s("a")), None);
    assert_eq!(keys(&page), vec![(s("c1"), s("ab")), (s("c1"), s("b"))]);
    let page = store.asks_by_collection(&s("c1"), &Some(s("aa")), Some(1));
    assert_eq!(keys(&page), vec![(s("c1"), s("ab"))]);
    assert!(store.asks_by_collection(&s("c1"), &Some(s("b")), None).is_empty());
    assert!(store.asks_by_collection(&s("c1"), &None, Some(0)).is_empty());
    assert!(store.asks_by_collection(&s("c3"), &None, None).is_empty());
    assert_eq!(store.count_in_collection(&s("c1")), 3);
    assert_eq!(store.count_in_collection(&s("c")), 1);
    assert_eq!(store.count_in_collection(&s("c3")), 0);
}

#[test]
fn asks_of_a_seller_come_in_key_order() {
    let store = filled();
    let page = store.asks_by_seller(&s("alice"), &None, None);
    assert_eq!(
        keys(&page),
        vec![(s("c1"), s("a")), (s("c1"), s("ab")), (s("c10"), s("a")), (s("c2"), s("b"))]
    );
    let page = store.asks_by_seller(&s("alice"), &Some((s("c1"), s("ab"))), Some(2));
    assert_eq!(keys(&page), vec![(s("c10"), s("a")), (s("c2"), s("b"))]);
    let page = store.asks_by_seller(&s("bob"), &Some((s("c"), s("z"))), None);
    assert_eq!(keys(&page), vec![(s("c1"), s("b"))]);
    assert!(store.asks_by_seller(&s("carol"), &None, None).is_empty());
}

#[test]
fn a_page_is_capped() {
    assert_eq!(page_cap(None), DEFAULT_QUERY_LIMIT as usize);
    assert_eq!(page_cap(None), 10);
    assert_eq!(page_cap(Some(0)), 0);
    assert_eq!(page_cap(Some(30)), 30);
    assert_eq!(page_cap(Some(31)), MAX_QUERY_LIMIT as usize);
    assert_eq!(page_cap(Some(u32::MAX)), 30);

    let mut store = AskStore::new();
    for i in 0..40u32 {
        store.save(ask("c1", &format!("{:03}", i), "alice", 300));
    }
    assert_eq!(store.asks_by_collection(&s("c1"), &None, None).len(), 10);
    assert_eq!(store.asks_by_collection(&s("c1"), &None, Some(25)).len(), 25);
    let page = store.asks_by_collection(&s("c1"), &Some(s("004")), Some(100));
    assert_eq!(page.len(), 30);
    assert_eq!(page[0].token_id, "005");
    assert_eq!(page[29].token_id, "034");
    assert_eq!(store.asks_by_seller(&s("alice"), &None, Some(100)).len(), 30);
    assert_eq!(store.asks_by_collection(&s("c1"), &Some(s("034")), Some(100)).len(), 5);
}

#[test]
fn bids_are_kept_one_per_key_in_bidder_order() {
    let mut store = BidStore::new();
    store.save(bid("c1", "t1", "carol", 30));
    store.save(bid("c1", "t1", "alice", 10));
    store.save(bid("c1", "t2", "alice", 11));
    store.save(bid("c1", "t1", "bob", 20));
    store.save(bid("c0", "t1", "bob", 21));
    store.save(bid("c1", "t1", "alice", 12));
    assert_eq!(store.len(), 5);
    assert_eq!(store.load(&s("c1"), &s("t1"), &s("alice")), Some(bid("c1", "t1", "alice", 12)));
    assert_eq!(store.load(&s("c1"), &s("t3"), &s("alice")), None);
    assert_eq!(
        store.all_bids_on_item(&s("c1"), &s("t1")),
        vec![bid("c1", "t1", "alice", 12), bid("c1", "t1", "bob", 20), bid("c1", "t1", "carol", 30)]
    );
    assert_eq!(
        store.bids_on_item(&s("c1"), &s("t1"), &Some(s("alice")), Some(1)),
        vec![bid("c1", "t1", "bob", 20)]
    );
    assert_eq!(store.bids_on_item(&s("c1"), &s("t1"), &None, None).len(), 3);
    assert!(store.bids_on_item(&s("c1"), &s("t1"), &Some(s("carol")), None).is_empty());
    assert_eq!(
        store.bids_by_bidder(&s("bob")),
        vec![bid("c0", "t1", "bob", 21), bid("c1", "t1", "bob", 20)]
    );
    store.remove(&s("c1"), &s("t1"), &s("bob"));
    store.remove(&s("c1"), &s("t1"), &s("nobody"));
    assert_eq!(store.len(), 4);
    assert_eq!(store.bids_by_bidder(&s("bob")), vec![bid("c0", "t1", "bob", 21)]);
}

#[test]
fn collection_bids_are_kept_one_per_key() {
    let cb = |collection: &str, bidder: &str, price: u128| CollectionBid {
        collection: s(collection),
        bidder: s(bidder),
        price,
        expires_at: Timestamp { nanos: 5 },
    };
    let mut store = CollectionBidStore::new();
    store.save(cb("c1", "bob", 20));
    store.save(cb("c1", "alice", 10));
    store.save(cb("c1", "bob", 25));
    assert_eq!(store.len(), 2);
    assert_eq!(store.load(&s("c1"), &s("bob")), Some(cb("c1", "bob", 25)));
    assert_eq!(store.load(&s("c2"), &s("bob")), None);
    store.remove(&s("c1"), &s("bob"));
    assert_eq!(store.load(&s("c1"), &s("bob")), None);
    assert_eq!(store.len(), 1);
    let block = BlockInfo { height: 1, time: Timestamp { nanos: 5 } };
    assert!(cb("c1", "alice", 10).is_expired(&block));
    let block = BlockInfo { height: 1, time: Timestamp { nanos: 4 } };
    assert!(!cb("c1", "alice", 10).is_expired(&block));
}

#[test]
fn queries_read_the_state() {
    let mut state = State::new(params());
    state.asks.save(ask("c1", "a", "alice", 300));
    state.asks.save(ask("c1", "b", "bob", 300));
    state.bids.save(bid("c1", "a", "carol", 50));
    state.collection_bids.save(CollectionBid {
        collection: s("c1"),
        bidder: s("carol"),
        price: 60,
        expires_at: Timestamp { nanos: 9 },
    });
    assert_eq!(query_asks(&state, &s("c1"), &None, None).asks.len(), 2);
    assert_eq!(query_ask_count(&state, &s("c1")).count, 2);
    assert_eq!(query_ask_count(&state, &s("c2")).count, 0);
    assert_eq!(keys(&query_asks_by_seller(&state, &s("bob"), &None, None).asks), vec![(s("c1"), s("b"))]);
    assert_eq!(query_bid(&state, &s("c1"), &s("a"), &s("carol")).bid, Some(bid("c1", "a", "carol", 50)));
    assert_eq!(query_bid(&state, &s("c1"), &s("a"), &s("dave")).bid, None);
    assert_eq!(query_bids_by_bidder(&state, &s("carol")).bids, vec![bid("c1", "a", "carol", 50)]);
    assert_eq!(query_collection_bid(&state, &s("c1"), &s("carol")).bid.unwrap().price, 60);
    assert_eq!(query_collection_bid(&state, &s("c1"), &s("dave")).bid, None);
    assert_eq!(query_params(&state).params, params());
    assert_eq!(query_operators(&state).operators, vec![s("operator1")]);

    match query(&state, QueryMsg::CurrentAsk { collection: s("c1"), token_id: s("a") }) {
        QueryResponse::CurrentAsk(r) => assert_eq!(r.ask, Some(ask("c1", "a", "alice", 300))),
        other => panic!("{:?}", other),
    }
    match query(&state, QueryMsg::Asks { collection: s("c1"), start_after: Some(s("a")), limit: None }) {
        QueryResponse::Asks(r) => assert_eq!(keys(&r.asks), vec![(s("c1"), s("b"))]),
        other => panic!("{:?}", other),
    }
    match query(&state, QueryMsg::AskCount { collection: s("c1") }) {
        QueryResponse::AskCount(r) => assert_eq!(r.count, 2),
        other => panic!("{:?}", other),
    }
    match query(&state, QueryMsg::AsksBySeller { seller: s("alice"), start_after_ask: None, limit: Some(5) }) {
        QueryResponse::Asks(r) => assert_eq!(keys(&r.asks), vec![(s("c1"), s("a"))]),
        other => panic!("{:?}", other),
    }
    match query(&state, QueryMsg::Bid { collection: s("c1"), token_id: s("a"), bidder: s("carol") }) {
        QueryResponse::Bid(r) => assert_eq!(r.bid.unwrap().price, 50),
        other => panic!("{:?}", other),
    }
    match query(&state, QueryMsg::BidsByBidder { bidder: s("carol") }) {
        QueryResponse::Bids(r) => assert_eq!(r.bids.len(), 1),
        other => panic!("{:?}", other),
    }
    match query(&state, QueryMsg::Bids { collection: s("c1"), token_id: s("a"), start_after: None, limit: None }) {
        QueryResponse::Bids(r) => assert_eq!(r.bids.len(), 1),
        other => panic!("{:?}", other),
    }
    match query(&state, QueryMsg::CollectionBid { collection: s("c1"), bidder: s("carol") }) {
        QueryResponse::CollectionBid(r) => assert_eq!(r.bid.unwrap().price, 60),
        other => panic!("{:?}", other),
    }
    match query(&state, QueryMsg::Params {}) {
        QueryResponse::Params(r) => assert_eq!(r.params.min_price, 10),
        other => panic!("{:?}", other),
    }
    match query(&state, QueryMsg::Operators {}) {
        QueryResponse::Operators(r) => assert_eq!(r.operators, vec![s("operator1")]),
        other => panic!("{:?}", other),
    }
}

#[test]
fn hooks_register_once_and_keep_their_order() {
    let mut hooks = Hooks::new();
    assert_eq!(hooks.len(), 0);
    assert_eq!(hooks.add_hook(s("h1")), Ok(()));
    assert_eq!(hooks.add_hook(s("h2")), Ok(()));
    assert_eq!(hooks.add_hook(s("h3")), Ok(()));
    assert_eq!(hooks.add_hook(s("h2")), Err(HookError::HookAlreadyRegistered));
    assert_eq!(hooks.list(), vec![s("h1"), s("h2"), s("h3")]);
    assert_eq!(hooks.remove_hook(&s("h4")), Err(HookError::HookNotRegistered));
    assert_eq!(hooks.remove_hook(&s("h2")), Ok(()));
    assert_eq!(hooks.list(), vec![s("h1"), s("h3")]);
    assert_eq!(hooks.len(), 2);
}

#[test]
fn notifications_go_to_every_subscriber() {
    let mut hooks = Hooks::new();
    hooks.add_hook(s("h1")).unwrap();
    hooks.add_hook(s("h2")).unwrap();
    let listed = ask("c1", "a", "alice", 300);

    let msgs = prepare_ask_hook(&hooks, &listed, HookAction::Update);
    assert_eq!(msgs.len(), 2);
    assert_eq!((msgs[0].id, msgs[0].reply_on), (1, ReplyOn::Error));
    assert_eq!(
        msgs[1].msg,
        Msg::AskHook { contract_addr: s("h2"), ask: listed.clone(), action: HookAction::Update }
    );

    let msgs = prepare_sale_hook(&hooks, &listed, &s("buyer"));
    assert_eq!(msgs.len(), 2);
    assert_eq!((msgs[1].id, msgs[1].reply_on), (2, ReplyOn::Error));
    assert_eq!(
        msgs[0].msg,
        Msg::SaleHook {
            contract_addr: s("h1"),
            collection: s("c1"),
            token_id: s("a"),
            price: coin_native(300),
            seller: s("alice"),
            buyer: s("buyer"),
        }
    );

    let placed = bid("c1", "a", "carol", 50);
    let msgs = prepare_bid_hook(&hooks, &placed, HookAction::Delete);
    assert_eq!((msgs[0].id, msgs[0].reply_on), (3, ReplyOn::Error));
    assert_eq!(msgs[0].msg, Msg::BidHook { contract_addr: s("h1"), bid: placed, action: HookAction::Delete });

    let standing = CollectionBid { collection: s("c1"), bidder: s("carol"), price: 60, expires_at: Timestamp { nanos: 9 } };
    let msgs = prepare_collection_bid_hook(&hooks, &standing, HookAction::Create);
    assert_eq!((msgs[1].id, msgs[1].reply_on), (4, ReplyOn::Error));
    assert_eq!(
        msgs[1].msg,
        Msg::CollectionBidHook { contract_addr: s("h2"), collection_bid: standing, action: HookAction::Create }
    );
    assert!(prepare_ask_hook(&Hooks::new(), &listed, HookAction::Create).is_empty());
}

#[test]
fn configuration_changes_what_is_named() {
    let mut state = State::new(params());
    let res = sudo_update_params(&mut state, &env(), None, Some(ExpiryRange { min: 1, max: 9 }), None, Some(20), None)
        .unwrap();
    assert_eq!(res.attributes, vec![Attribute { key: s("action"), value: s("update_params") }]);
    assert_eq!(
        state.params,
        SudoParams { bid_expiry: ExpiryRange { min: 1, max: 9 }, min_price: 20, ..params() }
    );
    let err = sudo_update_params(
        &mut state,
        &env(),
        Some(ExpiryRange { min: 9, max: 1 }),
        None,
        Some(vec![s("x")]),
        None,
        Some(4),
    )
    .unwrap_err();
    assert_eq!(err, ContractError::ExpiryRange(ExpiryRangeError::InvalidExpirationRange));
    assert_eq!(state.params.operators, vec![s("operator1")]);
    assert_eq!(state.params.listing_fee, 0);

    sudo(
        &mut state,
        &env(),
        SudoMsg::UpdateParams {
            ask_expiry: Some(ExpiryRange { min: 2, max: 3 }),
            bid_expiry: None,
            operators: Some(vec![s("x"), s("y")]),
            min_price: None,
            listing_fee: Some(4),
        },
    )
    .unwrap();
    assert_eq!(
        state.params,
        SudoParams {
            ask_expiry: ExpiryRange { min: 2, max: 3 },
            bid_expiry: ExpiryRange { min: 1, max: 9 },
            operators: vec![s("x"), s("y")],
            min_price: 20,
            listing_fee: 4,
        }
    );
}

#[test]
fn configuration_registers_and_removes_subscribers() {
    let mut state = State::new(params());
    for (add, remove) in [
        (SudoMsg::AddSaleHook { hook: s("h") }, SudoMsg::RemoveSaleHook { hook: s("h") }),
        (SudoMsg::AddAskHook { hook: s("h") }, SudoMsg::RemoveAskHook { hook: s("h") }),
        (SudoMsg::AddBidHook { hook: s("h") }, SudoMsg::RemoveBidHook { hook: s("h") }),
        (
            SudoMsg::AddCollectionBidHook { hook: s("h") },
            SudoMsg::RemoveCollectionBidHook { hook: s("h") },
        ),
    ] {
        let res = sudo(&mut state, &env(), add).unwrap();
        assert_eq!(res.attributes[1], Attribute { key: s("hook"), value: s("h") });
        let total =
            state.sale_hooks.len() + state.ask_hooks.len() + state.bid_hooks.len() + state.collection_bid_hooks.len();
        assert_eq!(total, 1);
        sudo(&mut state, &env(), remove).unwrap();
    }
    assert_eq!(
        sudo_remove_sale_hook(&mut state, s("h")).unwrap_err(),
        ContractError::Hook(HookError::HookNotRegistered)
    );
    assert_eq!(
        sudo_remove_ask_hook(&mut state, s("h")).unwrap_err(),
        ContractError::Hook(HookError::HookNotRegistered)
    );
    assert_eq!(
        sudo_remove_bid_hook(&mut state, s("h")).unwrap_err(),
        ContractError::Hook(HookError::HookNotRegistered)
    );
    assert_eq!(
        sudo_remove_collection_bid_hook(&mut state, s("h")).unwrap_err(),
        ContractError::Hook(HookError::HookNotRegistered)
    );
    let res = sudo_add_sale_hook(&mut state, s("h")).unwrap();
    assert_eq!(
        res.attributes,
        vec![
            Attribute { key: s("action"), value: s("add_sale_hook") },
            Attribute { key: s("hook"), value: s("h") },
        ]
    );
    let res = sudo_remove_sale_hook(&mut state, s("h")).unwrap();
    assert_eq!(res.attributes[0], Attribute { key: s("action"), value: s("remove_sale_hook") });
    assert_eq!(state.sale_hooks.len(), 0);
}

#[test]
fn an_expiry_must_lie_in_the_window() {
    let range = ExpiryRange::new(100, 500);
    let block = BlockInfo { height: 1, time: Timestamp { nanos: 7_000_000_000 } };
    let at = |seconds: u64, nanos: u64| Timestamp { nanos: 7_000_000_000 + seconds * 1_000_000_000 + nanos };
    assert_eq!(range.is_valid(&block, at(100, 0)), Ok(()));
    assert_eq!(range.is_valid(&block, at(500, 0)), Ok(()));
    assert_eq!(range.is_valid(&block, at(300, 5)), Ok(()));
    assert_eq!(range.is_valid(&block, at(99, 999_999_999)), Err(ExpiryRangeError::InvalidExpiration));
    assert_eq!(range.is_valid(&block, at(500, 1)), Err(ExpiryRangeError::InvalidExpiration));
    assert_eq!(range.is_valid(&block, at(0, 0)), Err(ExpiryRangeError::InvalidExpiration));
    assert_eq!(range.is_valid(&block, Timestamp { nanos: 1 }), Err(ExpiryRangeError::InvalidExpiration));
    assert_eq!(ExpiryRange::new(0, 5).is_valid(&block, at(0, 0)), Err(ExpiryRangeError::InvalidExpiration));
    assert_eq!(ExpiryRange::new(0, 5).is_valid(&block, at(0, 1)), Ok(()));
    assert_eq!(
        ExpiryRange::new(0, u64::MAX).is_valid(&block, Timestamp { nanos: u64::MAX }),
        Ok(())
    );
    assert_eq!(range.validate(), Ok(()));
    assert_eq!(ExpiryRange::new(5, 5).validate(), Ok(()));
    assert_eq!(ExpiryRange::new(6, 5).validate(), Err(ExpiryRangeError::InvalidExpirationRange));
}

#[test]
fn timestamps_move_by_seconds() {
    assert_eq!(Timestamp::from_seconds(2), Some(Timestamp { nanos: 2_000_000_000 }));
    assert_eq!(Timestamp::from_seconds(u64::MAX), None);
    let t = Timestamp { nanos: 5 };
    assert_eq!(t.plus_seconds(3), Some(Timestamp { nanos: 3_000_000_005 }));
    assert_eq!(
        t.plus_seconds(u64::MAX / 1_000_000_000),
        Some(Timestamp { nanos: 18_446_744_073_000_000_005 })
    );
    assert_eq!(t.plus_seconds(u64::MAX / 1_000_000_000 + 1), None);
    assert_eq!(Timestamp { nanos: 800_000_000 }.plus_seconds(u64::MAX / 1_000_000_000), None);
    assert_eq!(Timestamp { nanos: u64::MAX }.plus_seconds(1), None);
    assert_eq!(Timestamp { nanos: u64::MAX }.plus_seconds(0), Some(Timestamp { nanos: u64::MAX }));
}

#[test]
fn plain_values_copy() {
    assert_eq!(native_denom(), NATIVE_DENOM);
    assert_eq!(native_denom(), "uheart");
    assert_eq!(coin_native(7).amount, 7);
    assert_eq!(coin_native(7).denom, "uheart");
    assert_eq!(clone_opt_string(&Some(s("a"))), Some(s("a")));
    assert_eq!(clone_opt_string(&None), None);
    assert_eq!(clone_strings(&vec![s("a"), s("b")]), vec![s("a"), s("b")]);
}

#[test]
fn a_migration_goes_forward_only() {
    let stored = |version: &str| ContractVersion { contract: s("crates.io:human-marketplace"), version: s(version) };
    assert_eq!(migrate(&stored("0.15.0"), "0.16.0"), Ok(MigrateStep::Upgrade));
    assert_eq!(migrate(&stored("0.9.0"), "0.10.0"), Ok(MigrateStep::Upgrade));
    assert_eq!(migrate(&stored("1.0.0-rc.1"), "1.0.0"), Ok(MigrateStep::Upgrade));
    assert_eq!(migrate(&stored("0.16.0"), "0.16.0"), Ok(MigrateStep::UpToDate));
    assert_eq!(
        migrate(&stored("0.17.0"), "0.16.0"),
        Err(ContractError::Std(s("Cannot upgrade to a previous contract version")))
    );
    assert_eq!(
        migrate(&stored("0.10.0"), "0.9.0"),
        Err(ContractError::Std(s("Cannot upgrade to a previous contract version")))
    );
    assert_eq!(migrate(&stored("v1"), "0.16.0"), Err(ContractError::Std(s("Invalid contract version"))));
    assert_eq!(migrate(&stored("0.15.0"), "next"), Err(ContractError::Std(s("Invalid contract version"))));
    let other = ContractVersion { contract: s("crates.io:sale"), version: s("0.15.0") };
    assert_eq!(
        migrate(&other, "0.16.0"),
        Err(ContractError::Std(s("Cannot upgrade to a different contract")))
    );
    assert_eq!(migration_step(true, Some(VersionOrder::Older)), Ok(MigrateStep::Upgrade));
    assert_eq!(migration_step(true, Some(VersionOrder::Same)), Ok(MigrateStep::UpToDate));
    assert_eq!(
        migration_step(false, Some(VersionOrder::Older)),
        Err(ContractError::Std(s("Cannot upgrade to a different contract")))
    );
    assert_eq!(migration_step(true, None), Err(ContractError::Std(s("Invalid contract version"))));
}

#[test]
fn a_migration_carries_the_parameters_over() {
    let old = SudoParamsV015 {
        ask_expiry: ExpiryRange { min: 1, max: 2 },
        bid_expiry: ExpiryRange { min: 3, max: 4 },
        operators: vec![s("operator1")],
        min_price: 10,
        stale_bid_duration: Duration::Time(100),
        bid_removal_reward_percent: Decimal { atomics: 5 },
    };
    assert_eq!(
        upgrade_params(old),
        SudoParams {
            ask_expiry: ExpiryRange { min: 1, max: 2 },
            bid_expiry: ExpiryRange { min: 3, max: 4 },
            operators: vec![s("operator1")],
            min_price: 10,
            listing_fee: 0,
        }
    );
}
