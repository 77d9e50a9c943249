use marketplace::contract::{cw20_instance_reply, instantiate, migrate, reply};
use marketplace::error::ContractError;
use marketplace::host::{
    needs_minting_info, Attribute, Coin, ContractResult, Env, Event, MessageInfo, Querier, Reply,
    Response,
};
use marketplace::money::Decimal;
use marketplace::msg::{
    BidResponse, ConfigResponse, InstantiateMsg, MigrateMsg, QueryMsg, QueryResponse,
    RoyaltyResponse, StateResponse,
};
use marketplace::query::{
    query, query_all_auctions, query_auction, query_bidder, query_bidder_bids, query_bids,
    query_config, query_royalty, query_state,
};
use marketplace::rules::sent_funds;
use marketplace::state::{
    BidInfo, Cancellation, Config, HistoryBidInfo, HistoryInfo, ItemInfo, Ledger, RoyaltyInfo,
    State, TalisInfo,
};
use marketplace::table::{find_by_id, find_by_name, find_by_pair, store_at};
use marketplace::taxation::TaxInfo;

fn config() -> Config {
    Config {
        denom: "uusd".to_string(),
        bid_margin: Decimal::percent(5),
        lota_fee: Decimal::percent(5),
        lota_fee_low: Decimal::raw(17_500_000_000_000_000),
        lota_contract: "loterra".to_string(),
        sity_full_rewards: Decimal::percent(10),
        sity_partial_rewards: Decimal::percent(1),
        sity_fee_registration: Decimal::percent(2),
        sity_min_opening: 1_000_000,
    }
}

fn host() -> Env {
    Env { time: 77, contract_address: "token".to_string() }
}

/// A ledger that waits for the address of the reward token: the
/// marketplace's own address, "token", stands in the place of it.
fn empty_ledger() -> Ledger {
    Ledger::new(
        config(),
        State { counter_items: 0, cw20_address: "token".to_string() },
        Cancellation { cancellation_fee: Decimal::percent(10) },
    )
}

fn item(creator: &str, end_time: u64) -> ItemInfo {
    ItemInfo {
        creator: creator.to_string(),
        start_price: None,
        start_time: 0,
        end_time,
        highest_bid: None,
        highest_bidder: None,
        nft_contract: "market".to_string(),
        nft_id: "test".to_string(),
        total_bids: 0,
        charity: None,
        instant_buy: None,
        reserve_price: None,
        private_sale: false,
        resolved: false,
    }
}

fn entry(bidder: &str, amount: u128) -> HistoryBidInfo {
    HistoryBidInfo { bidder: bidder.to_string(), amount, time: 5, instant_buy: false }
}

#[test]
fn a_new_ledger_is_empty() {
    let ledger = empty_ledger();
    assert_eq!(ledger.load_item(0), None);
    assert_eq!(ledger.load_bid(0, &"alice".to_string()), None);
    assert_eq!(ledger.load_history(0), None);
    assert_eq!(ledger.load_bidder_history(0, &"alice".to_string()), None);
    assert_eq!(ledger.load_royalty(&"alice".to_string()), None);
    assert_eq!(ledger.config, config());
}

#[test]
fn saving_replaces_what_was_under_the_key() {
    let mut ledger = empty_ledger();
    ledger.save_item(3, item("ann", 10));
    ledger.save_item(1, item("bob", 20));
    assert_eq!(ledger.load_item(3), Some(item("ann", 10)));
    assert_eq!(ledger.load_item(1), Some(item("bob", 20)));
    assert_eq!(ledger.load_item(2), None);
    ledger.save_item(3, item("cat", 30));
    assert_eq!(ledger.load_item(3), Some(item("cat", 30)));
    assert_eq!(ledger.load_item(1), Some(item("bob", 20)));
    assert_eq!(ledger.items.len(), 2);
}

#[test]
fn escrow_records_are_kept_by_auction_and_bidder() {
    let mut ledger = empty_ledger();
    let alice = "alice".to_string();
    let bob = "bob".to_string();
    let first = BidInfo { bid_counter: 1, total_bid: 10, sity_used: None, resolved: false };
    let second = BidInfo { bid_counter: 2, total_bid: 25, sity_used: Some(4), resolved: false };
    ledger.save_bid(0, &alice, first);
    ledger.save_bid(1, &alice, second);
    assert_eq!(ledger.load_bid(0, &alice), Some(first));
    assert_eq!(ledger.load_bid(1, &alice), Some(second));
    assert_eq!(ledger.load_bid(0, &bob), None);
    ledger.save_bid(0, &alice, second);
    assert_eq!(ledger.load_bid(0, &alice), Some(second));
    assert_eq!(ledger.bids.len(), 2);
}

#[test]
fn histories_are_kept_by_auction_and_by_bidder() {
    let mut ledger = empty_ledger();
    let alice = "alice".to_string();
    ledger.save_history(0, HistoryInfo { bids: vec![entry("alice", 10)] });
    ledger.save_bidder_history(0, &alice, HistoryInfo { bids: vec![entry("alice", 10)] });
    ledger.save_history(0, HistoryInfo { bids: vec![entry("alice", 10), entry("bob", 20)] });
    assert_eq!(
        ledger.load_history(0),
        Some(HistoryInfo { bids: vec![entry("alice", 10), entry("bob", 20)] })
    );
    assert_eq!(
        ledger.load_bidder_history(0, &alice),
        Some(HistoryInfo { bids: vec![entry("alice", 10)] })
    );
    assert_eq!(ledger.load_bidder_history(1, &alice), None);
    assert_eq!(ledger.load_history(1), None);
}

#[test]
fn royalty_records_are_kept_by_minter() {
    let mut ledger = empty_ledger();
    let ann = "ann".to_string();
    let record =
        RoyaltyInfo { creator: "ann".to_string(), fee: Decimal::percent(3), recipient: None };
    ledger.save_royalty(&ann, record.clone());
    assert_eq!(ledger.load_royalty(&ann), Some(record));
    assert_eq!(ledger.load_royalty(&"bob".to_string()), None);
}

#[test]
fn the_last_entry_under_a_key_counts() {
    let table: Vec<(u64, u8)> = vec![(1, 10), (2, 20), (1, 30)];
    assert_eq!(find_by_id(&table, 1), Some(2));
    assert_eq!(find_by_id(&table, 2), Some(1));
    assert_eq!(find_by_id(&table, 3), None);
    let pairs: Vec<((u64, String), u8)> =
        vec![((1, "a".to_string()), 1), ((1, "b".to_string()), 2), ((2, "a".to_string()), 3)];
    assert_eq!(find_by_pair(&pairs, 1, &"a".to_string()), Some(0));
    assert_eq!(find_by_pair(&pairs, 2, &"a".to_string()), Some(2));
    assert_eq!(find_by_pair(&pairs, 2, &"b".to_string()), None);
    let names: Vec<(String, u8)> = vec![("a".to_string(), 1), ("a".to_string(), 2)];
    assert_eq!(find_by_name(&names, &"a".to_string()), Some(1));
    assert_eq!(find_by_name(&names, &"b".to_string()), None);
    let mut table = table;
    store_at(&mut table, Some(1), 2, 21);
    store_at(&mut table, None, 4, 40);
    assert_eq!(table, vec![(1, 10), (2, 21), (1, 30), (4, 40)]);
}

#[test]
fn funds_are_one_coin_of_the_settlement_currency() {
    let denom = "uusd".to_string();
    let coin = |d: &str, amount: u128| Coin { denom: d.to_string(), amount };
    assert_eq!(sent_funds(&vec![], &denom), Err(ContractError::EmptyFunds {}));
    assert_eq!(sent_funds(&vec![coin("uusd", 7)], &denom), Ok(7));
    assert_eq!(sent_funds(&vec![coin("uluna", 7)], &denom), Err(ContractError::WrongDenom {}));
    assert_eq!(
        sent_funds(&vec![coin("uusd", 7), coin("uluna", 1)], &denom),
        Err(ContractError::MultipleDenoms {})
    );
    assert_eq!(
        sent_funds(&vec![coin("uusd", 7), coin("uusd", 1)], &denom),
        Err(ContractError::MultipleDenoms {})
    );
}

#[test]
fn queries_tell_what_the_ledger_holds() {
    let mut ledger = empty_ledger();
    let alice = "alice".to_string();
    assert_eq!(query_auction(&ledger, 0), Err(ContractError::NotFound {}));
    ledger.save_item(0, item("ann", 10));
    let auction = query_auction(&ledger, 0).unwrap();
    assert_eq!(auction.creator, "ann");
    assert_eq!(auction.end_time, 10);
    assert_eq!(auction.resolved, false);

    assert_eq!(
        query_bidder(&ledger, 0, &alice),
        BidResponse { bid_counter: 0, total_bid: 0, sity_used: None }
    );
    ledger.save_bid(
        0,
        &alice,
        BidInfo { bid_counter: 2, total_bid: 25, sity_used: Some(4), resolved: true },
    );
    assert_eq!(
        query_bidder(&ledger, 0, &alice),
        BidResponse { bid_counter: 2, total_bid: 25, sity_used: Some(4) }
    );

    assert_eq!(query_bids(&ledger, 0).bids.len(), 0);
    assert_eq!(query_bidder_bids(&ledger, 0, &alice).bids.len(), 0);
    ledger.save_history(0, HistoryInfo { bids: vec![entry("alice", 10), entry("bob", 20)] });
    ledger.save_bidder_history(0, &alice, HistoryInfo { bids: vec![entry("alice", 10)] });
    let bids = query_bids(&ledger, 0).bids;
    assert_eq!(bids.len(), 2);
    assert_eq!(bids[0].bidder, "alice");
    assert_eq!(bids[1].bidder, "bob");
    assert_eq!(bids[1].amount, 20);
    assert_eq!(bids[1].time, 5);
    assert_eq!(bids[1].instant_buy, false);
    assert_eq!(query_bidder_bids(&ledger, 0, &alice).bids.len(), 1);

    assert_eq!(
        query_config(&ledger),
        ConfigResponse {
            denom: "uusd".to_string(),
            bid_margin: Decimal::percent(5),
            lota_fee: Decimal::percent(5),
            lota_fee_low: Decimal::raw(17_500_000_000_000_000),
            lota_contract: "loterra".to_string(),
            sity_full_rewards: Decimal::percent(10),
            sity_partial_rewards: Decimal::percent(1),
            sity_fee_registration: Decimal::percent(2),
            sity_min_opening: 1_000_000,
            cancellation_fee: Decimal::percent(10),
        }
    );
    assert_eq!(
        query_state(&ledger),
        StateResponse { counter_items: 0, cw20_address: "token".to_string() }
    );
    assert_eq!(
        query_royalty(&ledger, &alice),
        RoyaltyResponse { creator: "alice".to_string(), fee: Decimal::zero(), recipient: None }
    );
    ledger.save_royalty(
        &alice,
        RoyaltyInfo {
            creator: "alice".to_string(),
            fee: Decimal::percent(3),
            recipient: Some("bob".to_string()),
        },
    );
    assert_eq!(
        query_royalty(&ledger, &alice),
        RoyaltyResponse {
            creator: "alice".to_string(),
            fee: Decimal::percent(3),
            recipient: Some("bob".to_string()),
        }
    );
}

#[test]
fn the_query_dispatcher_answers_by_kind() {
    let mut ledger = empty_ledger();
    ledger.save_item(4, item("ann", 10));
    assert_eq!(
        query(&ledger, QueryMsg::Auction { auction_id: 0 }),
        Err(ContractError::NotFound {})
    );
    assert!(matches!(
        query(&ledger, QueryMsg::Auction { auction_id: 4 }),
        Ok(QueryResponse::Auction(a)) if a.creator == "ann"
    ));
    assert_eq!(
        query(&ledger, QueryMsg::Bidder { auction_id: 4, address: "alice".to_string() }),
        Ok(QueryResponse::Bidder(BidResponse { bid_counter: 0, total_bid: 0, sity_used: None }))
    );
    assert!(matches!(
        query(&ledger, QueryMsg::HistoryBids { auction_id: 4 }),
        Ok(QueryResponse::History(h)) if h.bids.is_empty()
    ));
    assert!(matches!(
        query(&ledger, QueryMsg::HistoryBidderBids { auction_id: 4, address: "a".to_string() }),
        Ok(QueryResponse::History(h)) if h.bids.is_empty()
    ));
    assert!(matches!(
        query(&ledger, QueryMsg::Config {}),
        Ok(QueryResponse::Config(c)) if c.cancellation_fee == Decimal::percent(10)
    ));
    assert!(matches!(
        query(&ledger, QueryMsg::State {}),
        Ok(QueryResponse::State(s)) if s.cw20_address == "token"
    ));
    assert!(matches!(
        query(&ledger, QueryMsg::AllAuctions { start_after: None, limit: None }),
        Ok(QueryResponse::AllAuctions(a)) if a.auctions.len() == 1 && a.auctions[0].0 == 4
    ));
    assert!(matches!(
        query(&ledger, QueryMsg::Royalty { address: "ann".to_string() }),
        Ok(QueryResponse::Royalty(r)) if r.creator == "ann" && r.recipient.is_none()
    ));
}

fn ids(ledger: &Ledger, start_after: Option<u64>, limit: Option<u32>) -> Vec<u64> {
    query_all_auctions(ledger, start_after, limit).auctions.iter().map(|a| a.0).collect()
}

#[test]
fn auctions_are_listed_by_ascending_identifier() {
    let mut ledger = empty_ledger();
    for id in [7u64, 2, 9, 0, 5] {
        ledger.save_item(id, item("ann", 100 + id));
    }
    assert_eq!(ids(&ledger, None, None), vec![0, 2, 5, 7, 9]);
    assert_eq!(ids(&ledger, Some(2), None), vec![5, 7, 9]);
    assert_eq!(ids(&ledger, Some(3), Some(2)), vec![5, 7]);
    assert_eq!(ids(&ledger, Some(9), None), Vec::<u64>::new());
    assert_eq!(ids(&ledger, None, Some(0)), Vec::<u64>::new());
    let page = query_all_auctions(&ledger, Some(5), Some(1));
    assert_eq!(page.auctions[0].1.end_time, 107);
    // An auction that was saved again is listed once, as it is now.
    ledger.save_item(2, item("bob", 50));
    assert_eq!(ids(&ledger, None, None), vec![0, 2, 5, 7, 9]);
    assert_eq!(query_all_auctions(&ledger, Some(0), Some(1)).auctions[0].1.creator, "bob");
}

#[test]
fn a_page_holds_ten_auctions_unless_asked_and_thirty_at_most() {
    let mut ledger = empty_ledger();
    for id in 0..40u64 {
        ledger.save_item(id, item("ann", 100));
    }
    assert_eq!(ids(&ledger, None, None), (0..10u64).collect::<Vec<u64>>());
    assert_eq!(ids(&ledger, None, Some(30)), (0..30u64).collect::<Vec<u64>>());
    assert_eq!(ids(&ledger, None, Some(31)), (0..30u64).collect::<Vec<u64>>());
    assert_eq!(ids(&ledger, None, Some(u32::MAX)), (0..30u64).collect::<Vec<u64>>());
    assert_eq!(ids(&ledger, Some(34), Some(30)), (35..40u64).collect::<Vec<u64>>());
    assert_eq!(ids(&ledger, Some(u64::MAX), None), Vec::<u64>::new());
}

fn querier(minter: Option<&str>, indexed: Option<Option<&str>>) -> Querier {
    Querier {
        tax: TaxInfo { rate: Decimal::zero(), cap: 0 },
        minter: minter.map(|m| m.to_string()),
        minting_info: indexed
            .map(|m| TalisInfo { minter: m.map(|m| m.to_string()), max_supply: Some(3) }),
    }
}

#[test]
fn the_minter_is_the_one_the_contract_names_or_the_one_the_index_names() {
    assert_eq!(querier(Some("terrans"), None).resolve_minter(), Some("terrans".to_string()));
    assert_eq!(
        querier(Some("terrans"), Some(Some("other"))).resolve_minter(),
        Some("terrans".to_string())
    );
    assert_eq!(querier(None, None).resolve_minter(), None);
    assert_eq!(querier(None, Some(Some("artist"))).resolve_minter(), Some("artist".to_string()));
    assert_eq!(
        querier(Some("talis"), Some(Some("artist"))).resolve_minter(),
        Some("artist".to_string())
    );
    assert_eq!(querier(Some("talis"), None).resolve_minter(), None);
    assert_eq!(querier(None, Some(Some("undefined"))).resolve_minter(), None);
    assert_eq!(querier(None, Some(None)).resolve_minter(), None);
    assert!(needs_minting_info(&None));
    assert!(needs_minting_info(&Some("talis".to_string())));
    assert!(!needs_minting_info(&Some("terrans".to_string())));
}

fn attribute(key: &str, value: &str) -> Attribute {
    Attribute { key: key.to_string(), value: value.to_string() }
}

fn event(ty: &str, attributes: Vec<Attribute>) -> Event {
    Event { ty: ty.to_string(), attributes }
}

#[test]
fn the_report_of_the_deployment_names_the_reward_token() {
    let mut ledger = empty_ledger();
    let events = vec![
        event("message", vec![attribute("contract_address", "wrong")]),
        event(
            "instantiate_contract",
            vec![
                attribute("code_id", "9"),
                attribute("contract_address", "sity"),
                attribute("contract_address", "later"),
            ],
        ),
        event("instantiate_contract", vec![attribute("contract_address", "second")]),
    ];
    let res =
        reply(&mut ledger, &host(), Reply { id: 0, result: ContractResult::Success(events) })
            .unwrap();
    assert_eq!(ledger.state.cw20_address, "sity");
    assert_eq!(ledger.state.counter_items, 0);
    assert_eq!(
        res,
        Response {
            messages: vec![],
            attributes: vec![
                attribute("cw20-address", "sity"),
                attribute("action", "cw20-instantiate"),
            ],
        }
    );
}

#[test]
fn a_report_that_names_no_token_is_rejected() {
    let mut ledger = empty_ledger();
    let before = empty_ledger();
    let failed = ContractResult::Failure("out of gas".to_string());
    assert_eq!(
        cw20_instance_reply(&mut ledger, &host(), failed),
        Err(ContractError::Unauthorized {})
    );
    let nothing = ContractResult::Success(vec![]);
    assert_eq!(
        cw20_instance_reply(&mut ledger, &host(), nothing),
        Err(ContractError::Unauthorized {})
    );
    // The first event that reports a deployment counts, and it names nothing.
    let unnamed = ContractResult::Success(vec![
        event("instantiate_contract", vec![attribute("code_id", "9")]),
        event("instantiate_contract", vec![attribute("contract_address", "second")]),
    ]);
    assert_eq!(
        cw20_instance_reply(&mut ledger, &host(), unnamed),
        Err(ContractError::Unauthorized {})
    );
    let other = Reply {
        id: 1,
        result: ContractResult::Success(vec![event(
            "instantiate_contract",
            vec![attribute("contract_address", "sity")],
        )]),
    };
    assert_eq!(reply(&mut ledger, &host(), other), Err(ContractError::Unauthorized {}));
    assert_eq!(ledger, before);
}

#[test]
fn the_reward_token_is_named_once() {
    let mut ledger = empty_ledger();
    let report = |address: &str| Reply {
        id: 0,
        result: ContractResult::Success(vec![event(
            "instantiate_contract",
            vec![attribute("contract_address", address)],
        )]),
    };
    reply(&mut ledger, &host(), report("sity")).unwrap();
    assert_eq!(reply(&mut ledger, &host(), report("other")), Err(ContractError::Unauthorized {}));
    assert_eq!(reply(&mut ledger, &host(), report("sity")), Err(ContractError::Unauthorized {}));
    assert_eq!(ledger.state.cw20_address, "sity");
}

#[test]
fn setting_up_takes_the_parameters_of_the_message() {
    let env = Env { time: 77, contract_address: "market_place".to_string() };
    let info = MessageInfo { sender: "owner".to_string(), funds: vec![] };
    let msg = InstantiateMsg {
        denom: "uusd".to_string(),
        cw20_code_id: 9,
        cw20_label: "cw20".to_string(),
        bid_margin: Decimal::percent(5),
        lota_fee: Decimal::percent(5),
        lota_fee_low: Decimal::raw(17_500_000_000_000_000),
        lota_contract: "loterra".to_string(),
        sity_full_rewards: Decimal::percent(10),
        sity_partial_rewards: Decimal::percent(1),
        sity_fee_registration: Decimal::percent(2),
        sity_min_opening: 1_000_000,
    };
    let (ledger, res) = instantiate(&env, &info, msg);
    assert_eq!(ledger.config, config());
    assert_eq!(
        ledger.state,
        State { counter_items: 0, cw20_address: "market_place".to_string() }
    );
    assert_eq!(ledger.cancellation, Cancellation { cancellation_fee: Decimal::zero() });
    assert!(ledger.items.is_empty());
    assert_eq!(
        res.attributes,
        vec![attribute("method", "instantiate"), attribute("owner", "owner")]
    );
}

#[test]
fn migrating_changes_nothing() {
    let mut ledger = empty_ledger();
    ledger.save_item(0, item("ann", 10));
    let mut before = empty_ledger();
    before.save_item(0, item("ann", 10));
    let res = migrate(&mut ledger, MigrateMsg {});
    assert_eq!(res, Response { messages: vec![], attributes: vec![] });
    assert_eq!(ledger, before);
}
