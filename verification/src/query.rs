//! The queries of the marketplace. A query changes nothing.

use crate::error::ContractError;
use crate::money::Decimal;
use crate::msg::{
    AllAuctionsResponse, AuctionResponse, BidResponse, CharityResponse, ConfigResponse,
    ConfigResponseView, HistoryBidResponse, HistoryResponse, QueryMsg, QueryResponse,
    QueryResponseView, RoyaltyResponse, StateResponse,
};
use crate::rules::{bid_of, default_royalty_fee};
use crate::state::{
    item_value, HistoryBidView, HistoryInfo, ItemInfo, ItemInfoView, Ledger, LedgerView,
    RoyaltyView,
};
use crate::table::{entries, id_key, lemma_table_entry_key, lemma_table_key_entry};
use vstd::prelude::*;

verus! {

/// How many auctions a page holds where the query does not say.
pub const DEFAULT_LIMIT: u32 = 10;

/// How many auctions a page holds at most.
pub const MAX_LIMIT: u32 = 30;

/// What is told of an auction.
fn auction_response(item: ItemInfo) -> (r: AuctionResponse)
    ensures
        r@ == item@,
{
    AuctionResponse {
        creator: item.creator,
        start_price: item.start_price,
        start_time: item.start_time,
        end_time: item.end_time,
        highest_bid: item.highest_bid,
        highest_bidder: item.highest_bidder,
        nft_contract: item.nft_contract,
        nft_id: item.nft_id,
        total_bids: item.total_bids,
        charity: match item.charity {
            None => None,
            Some(c) => Some(
                CharityResponse { address: c.address, fee_percentage: c.fee_percentage },
            ),
        },
        instant_buy: item.instant_buy,
        reserve_price: item.reserve_price,
        private_sale: item.private_sale,
        resolved: item.resolved,
    }
}

/// The auction `auction_id`; an unknown one is an error.
pub fn query_auction(ledger: &Ledger, auction_id: u64) -> (r: Result<AuctionResponse, ContractError>)
    ensures
        match r {
            Ok(auction) => ledger@.items.contains_key(auction_id) && auction@
                == ledger@.items[auction_id],
            Err(e) => !ledger@.items.contains_key(auction_id) && e == (ContractError::NotFound {  }),
        },
{
    match ledger.load_item(auction_id) {
        None => Err(ContractError::NotFound {  }),
        Some(item) => Ok(auction_response(item)),
    }
}

/// What is told of an escrow: the record, or an empty one where there is
/// none.
pub open spec fn bidder_answer(ledger: LedgerView, auction_id: u64, address: Seq<char>) -> BidResponse {
    match bid_of(ledger, auction_id, address) {
        None => BidResponse { bid_counter: 0, total_bid: 0, sity_used: None },
        Some(bid) => BidResponse {
            bid_counter: bid.bid_counter,
            total_bid: bid.total_bid,
            sity_used: bid.sity_used,
        },
    }
}

/// The escrow of `address` on the auction `auction_id`.
pub fn query_bidder(ledger: &Ledger, auction_id: u64, address: &String) -> (r: BidResponse)
    ensures
        r == bidder_answer(ledger@, auction_id, address@),
{
    match ledger.load_bid(auction_id, address) {
        None => BidResponse { bid_counter: 0, total_bid: 0, sity_used: None },
        Some(bid) => BidResponse {
            bid_counter: bid.bid_counter,
            total_bid: bid.total_bid,
            sity_used: bid.sity_used,
        },
    }
}

/// What is told of a history.
fn history_response(history: Option<HistoryInfo>) -> (r: HistoryResponse)
    ensures
        r@ == match history {
            Some(h) => h@,
            None => Seq::<HistoryBidView>::empty(),
        },
{
    let mut bids: Vec<HistoryBidResponse> = Vec::new();
    match history {
        None => {
            let r = HistoryResponse { bids };
            r
        },
        Some(h) => {
            let mut i: usize = 0;
            while i < h.bids.len()
                invariant
                    i <= h.bids.len(),
                    bids.len() == i,
                    forall|j: int| 0 <= j < i ==> bids[j]@ == h.bids[j]@,
                decreases h.bids.len() - i,
            {
                bids.push(
                    HistoryBidResponse {
                        bidder: h.bids[i].bidder.clone(),
                        amount: h.bids[i].amount,
                        time: h.bids[i].time,
                        instant_buy: h.bids[i].instant_buy,
                    },
                );
                i = i + 1;
            }
            let r = HistoryResponse { bids };
            r
        },
    }
}

/// What is told of the bids on an auction: its history, oldest first, or
/// nothing where none was begun.
pub open spec fn bids_answer(ledger: LedgerView, auction_id: u64) -> Seq<HistoryBidView> {
    if ledger.histories.contains_key(auction_id) {
        ledger.histories[auction_id]
    } else {
        Seq::empty()
    }
}

/// The accepted bids on the auction `auction_id`.
pub fn query_bids(ledger: &Ledger, auction_id: u64) -> (r: HistoryResponse)
    ensures
        r@ == bids_answer(ledger@, auction_id),
{
    history_response(ledger.load_history(auction_id))
}

/// What is told of the bids of a bidder on an auction: that history, oldest
/// first, or nothing where none was begun.
pub open spec fn bidder_bids_answer(ledger: LedgerView, auction_id: u64, address: Seq<char>) -> Seq<
    HistoryBidView,
> {
    if ledger.histories_bidder.contains_key((auction_id, address)) {
        ledger.histories_bidder[(auction_id, address)]
    } else {
        Seq::empty()
    }
}

/// The accepted bids of `address` on the auction `auction_id`.
pub fn query_bidder_bids(ledger: &Ledger, auction_id: u64, address: &String) -> (r: HistoryResponse)
    ensures
        r@ == bidder_bids_answer(ledger@, auction_id, address@),
{
    history_response(ledger.load_bidder_history(auction_id, address))
}

/// The parameters of the marketplace, with the cancellation fee.
pub fn query_config(ledger: &Ledger) -> (r: ConfigResponse)
    ensures
        r@ == (ConfigResponseView {
            config: ledger@.config,
            cancellation_fee: ledger@.cancellation.cancellation_fee,
        }),
{
    ConfigResponse {
        denom: ledger.config.denom.clone(),
        bid_margin: ledger.config.bid_margin,
        lota_fee: ledger.config.lota_fee,
        lota_fee_low: ledger.config.lota_fee_low,
        lota_contract: ledger.config.lota_contract.clone(),
        sity_full_rewards: ledger.config.sity_full_rewards,
        sity_partial_rewards: ledger.config.sity_partial_rewards,
        sity_fee_registration: ledger.config.sity_fee_registration,
        sity_min_opening: ledger.config.sity_min_opening,
        cancellation_fee: ledger.cancellation.cancellation_fee,
    }
}

/// The counter of auctions and the address of the reward token.
pub fn query_state(ledger: &Ledger) -> (r: StateResponse)
    ensures
        r@ == ledger@.state,
{
    StateResponse {
        counter_items: ledger.state.counter_items,
        cw20_address: ledger.state.cw20_address.clone(),
    }
}

/// What is told of a minter's royalty: its record, or one at the default
/// rate that names nobody where it has none.
pub open spec fn royalty_answer(ledger: LedgerView, address: Seq<char>) -> RoyaltyView {
    if ledger.royalty.contains_key(address) {
        ledger.royalty[address]
    } else {
        RoyaltyView { creator: address, fee: default_royalty_fee(), recipient: None }
    }
}

/// The royalty of the minter `address`.
pub fn query_royalty(ledger: &Ledger, address: &String) -> (r: RoyaltyResponse)
    ensures
        r@ == royalty_answer(ledger@, address@),
{
    match ledger.load_royalty(address) {
        Some(record) => RoyaltyResponse {
            creator: record.creator,
            fee: record.fee,
            recipient: record.recipient,
        },
        None => RoyaltyResponse { creator: address.clone(), fee: Decimal::zero(), recipient: None },
    }
}

/// How many auctions a page holds: what the query asks for, ten where it
/// does not say, and thirty at most.
pub open spec fn page_limit(limit: Option<u32>) -> nat {
    let asked = match limit {
        Some(l) => l,
        None => DEFAULT_LIMIT,
    };
    if asked < MAX_LIMIT {
        asked as nat
    } else {
        MAX_LIMIT as nat
    }
}

/// The identifier `id` lies after the place where a page starts.
pub open spec fn is_after(start_after: Option<u64>, id: u64) -> bool {
    match start_after {
        Some(s) => id > s,
        None => true,
    }
}

/// The auction `id` is the first one after `start_after`.
pub open spec fn is_next(items: Map<u64, ItemInfoView>, start_after: Option<u64>, id: u64) -> bool {
    &&& items.contains_key(id)
    &&& is_after(start_after, id)
    &&& forall|other: u64|
        items.contains_key(other) && is_after(start_after, other) ==> id <= other
}

/// There is an auction after `start_after`.
pub open spec fn has_next(items: Map<u64, ItemInfoView>, start_after: Option<u64>) -> bool {
    exists|id: u64| is_next(items, start_after, id)
}

/// The first auction after `start_after`.
pub open spec fn next_of(items: Map<u64, ItemInfoView>, start_after: Option<u64>) -> u64 {
    choose|id: u64| is_next(items, start_after, id)
}

/// The first `n` auctions after `start_after`, by ascending identifier, or
/// all of them where there are fewer.
pub open spec fn page_of(items: Map<u64, ItemInfoView>, start_after: Option<u64>, n: nat) -> Seq<
    (u64, ItemInfoView),
>
    decreases n,
{
    if n == 0 || !has_next(items, start_after) {
        Seq::empty()
    } else {
        let id = next_of(items, start_after);
        seq![(id, items[id])] + page_of(items, Some(id), (n - 1) as nat)
    }
}

/// The identifier of the first auction after `start_after`, if there is one.
fn next_auction(ledger: &Ledger, start_after: Option<u64>) -> (r: Option<u64>)
    ensures
        match r {
            Some(id) => is_next(ledger@.items, start_after, id) && next_of(
                ledger@.items,
                start_after,
            ) == id,
            None => !has_next(ledger@.items, start_after),
        },
{
    let mut best: Option<u64> = None;
    let ghost mut at: int = 0;
    let mut i: usize = 0;
    while i < ledger.items.len()
        invariant
            i <= ledger.items.len(),
            match best {
                Some(id) => 0 <= at < i && ledger.items[at].0 == id && is_after(start_after, id),
                None => true,
            },
            forall|j: int|
                0 <= j < i && is_after(start_after, (#[trigger] ledger.items[j]).0) ==> best is Some
                    && best.unwrap() <= ledger.items[j].0,
        decreases ledger.items.len() - i,
    {
        let id: u64 = ledger.items[i].0;
        let after: bool = match start_after {
            Some(s) => id > s,
            None => true,
        };
        let better: bool = match best {
            Some(b) => id < b,
            None => true,
        };
        if after && better {
            best = Some(id);
            proof {
                at = i as int;
            }
        }
        i = i + 1;
    }
    proof {
        let e = entries(ledger.items@, id_key(), item_value());
        let items = ledger@.items;
        assert forall|other: u64| items.contains_key(other) && is_after(start_after, other) implies best is Some
            && best.unwrap() <= other by {
            lemma_table_key_entry(e, other);
        }
        match best {
            Some(id) => {
                lemma_table_entry_key(e, at);
                assert(is_next(items, start_after, id));
            },
            None => {
                assert forall|id: u64| !is_next(items, start_after, id) by {}
            },
        }
    }
    best
}

/// The auctions after `start_after`, by ascending identifier, as many as the
/// page holds.
pub fn query_all_auctions(ledger: &Ledger, start_after: Option<u64>, limit: Option<u32>) -> (r:
    AllAuctionsResponse)
    ensures
        r@ == page_of(ledger@.items, start_after, page_limit(limit)),
{
    let asked: u32 = match limit {
        Some(l) => l,
        None => DEFAULT_LIMIT,
    };
    let limit: u32 = if asked < MAX_LIMIT {
        asked
    } else {
        MAX_LIMIT
    };
    let mut cursor: Option<u64> = start_after;
    let mut n: u32 = 0;
    let mut done: bool = false;
    let ghost whole = page_of(ledger@.items, start_after, limit as nat);
    let mut r = AllAuctionsResponse { auctions: Vec::new() };
    while n < limit && !done
        invariant
            n <= limit,
            whole == r@ + if done {
                Seq::<(u64, ItemInfoView)>::empty()
            } else {
                page_of(ledger@.items, cursor, (limit - n) as nat)
            },
        decreases limit - n + if done { 0int } else { 1int },
    {
        match next_auction(ledger, cursor) {
            None => {
                done = true;
            },
            Some(id) => {
                let item = ledger.load_item(id).unwrap();
                r.auctions.push((id, auction_response(item)));
                cursor = Some(id);
                n = n + 1;
            },
        }
    }
    r
}

/// The answer to a query, by its kind.
pub open spec fn answer_of(ledger: LedgerView, msg: QueryMsg) -> Result<
    QueryResponseView,
    ContractError,
> {
    match msg {
        QueryMsg::Auction { auction_id } => if ledger.items.contains_key(auction_id) {
            Ok(QueryResponseView::Auction(ledger.items[auction_id]))
        } else {
            Err(ContractError::NotFound {  })
        },
        QueryMsg::Bidder { auction_id, address } => Ok(
            QueryResponseView::Bidder(bidder_answer(ledger, auction_id, address@)),
        ),
        QueryMsg::HistoryBids { auction_id } => Ok(
            QueryResponseView::History(bids_answer(ledger, auction_id)),
        ),
        QueryMsg::HistoryBidderBids { auction_id, address } => Ok(
            QueryResponseView::History(bidder_bids_answer(ledger, auction_id, address@)),
        ),
        QueryMsg::Config {  } => Ok(
            QueryResponseView::Config(
                ConfigResponseView {
                    config: ledger.config,
                    cancellation_fee: ledger.cancellation.cancellation_fee,
                },
            ),
        ),
        QueryMsg::State {  } => Ok(QueryResponseView::State(ledger.state)),
        QueryMsg::AllAuctions { start_after, limit } => Ok(
            QueryResponseView::AllAuctions(page_of(ledger.items, start_after, page_limit(limit))),
        ),
        QueryMsg::Royalty { address } => Ok(
            QueryResponseView::Royalty(royalty_answer(ledger, address@)),
        ),
    }
}

/// Answers the query `msg`.
pub fn query(ledger: &Ledger, msg: QueryMsg) -> (r: Result<QueryResponse, ContractError>)
    ensures
        match answer_of(ledger@, msg) {
            Ok(answer) => r is Ok && r->Ok_0@ == answer,
            Err(e) => r == Err::<QueryResponse, ContractError>(e),
        },
{
    match msg {
        QueryMsg::Auction { auction_id } => match query_auction(ledger, auction_id) {
            Ok(auction) => Ok(QueryResponse::Auction(auction)),
            Err(e) => Err(e),
        },
        QueryMsg::Bidder { auction_id, address } => Ok(
            QueryResponse::Bidder(query_bidder(ledger, auction_id, &address)),
        ),
        QueryMsg::HistoryBids { auction_id } => Ok(
            QueryResponse::History(query_bids(ledger, auction_id)),
        ),
        QueryMsg::HistoryBidderBids { auction_id, address } => Ok(
            QueryResponse::History(query_bidder_bids(ledger, auction_id, &address)),
        ),
        QueryMsg::Config {  } => Ok(QueryResponse::Config(query_config(ledger))),
        QueryMsg::State {  } => Ok(QueryResponse::State(query_state(ledger))),
        QueryMsg::AllAuctions { start_after, limit } => Ok(
            QueryResponse::AllAuctions(query_all_auctions(ledger, start_after, limit)),
        ),
        QueryMsg::Royalty { address } => Ok(QueryResponse::Royalty(query_royalty(ledger, &address))),
    }
}

} // verus!
