//! What holds of every ledger that the marketplace can come to have.
//!
//! A ledger is coherent where its auctions are numbered below the counter,
//! their prices are in order, their bids fit their prices, and every escrow
//! record and every history belongs to an auction. The marketplace begins
//! with a coherent ledger, and every operation keeps a coherent ledger
//! coherent.

use crate::admission::register;
use crate::auction::{cancel, create_auction, Listing};
use crate::bidding::{amount_or_zero, bid_floor_of, instant_buy, place_bid, retract};
use crate::contract::{executed, initial_ledger, replied};
use crate::host::{Coin, Env, MessageInfo, Querier, Reply};
use crate::laws::prices_in_order;
use crate::money::{mul_floor, Decimal, DECIMAL_FRACTIONAL};
use crate::msg::{charity_response_of, ExecuteMsg, InstantiateMsg, ReceiveMsg};
use crate::settlement::withdraw;
use crate::state::{ItemInfoView, LedgerView};
use crate::taxation::TaxInfo;
use vstd::prelude::*;

verus! {

/// The bids of the auction fit its prices: its prices are in order; an
/// auction with a highest bid has counted a bid; only an auction with a
/// highest bid has a highest bidder; and the highest bid is not below the
/// start price and not above the instant-buy price.
pub open spec fn auction_coherent(item: ItemInfoView) -> bool {
    &&& prices_in_order(item)
    &&& item.highest_bid is Some ==> item.total_bids > 0
    &&& item.highest_bidder is Some ==> item.highest_bid is Some
    &&& (item.highest_bid is Some && item.start_price is Some) ==> item.highest_bid.unwrap()
        >= item.start_price.unwrap()
    &&& (item.highest_bid is Some && item.instant_buy is Some) ==> item.highest_bid.unwrap()
        <= item.instant_buy.unwrap()
}

/// The ledger is coherent.
pub open spec fn coherent(ledger: LedgerView) -> bool {
    &&& forall|id: u64| #[trigger]
        ledger.items.contains_key(id) ==> id < ledger.state.counter_items && auction_coherent(
            ledger.items[id],
        )
    &&& forall|key: (u64, Seq<char>)| #[trigger]
        ledger.bids.contains_key(key) ==> ledger.items.contains_key(key.0)
    &&& forall|id: u64| #[trigger]
        ledger.histories.contains_key(id) ==> ledger.items.contains_key(id)
    &&& forall|key: (u64, Seq<char>)| #[trigger]
        ledger.histories_bidder.contains_key(key) ==> ledger.items.contains_key(key.0)
}

/// The marketplace begins with a coherent ledger.
pub proof fn law_new_marketplace_is_coherent(marketplace: Seq<char>, msg: InstantiateMsg)
    ensures
        coherent(initial_ledger(marketplace, msg)),
{
}

proof fn lemma_bid_keeps_coherence(
    ledger: LedgerView,
    now: u64,
    sender: Seq<char>,
    funds: Seq<Coin>,
    auction_id: u64,
)
    requires
        coherent(ledger),
        place_bid(ledger, now, sender, funds, auction_id) is Ok,
    ensures
        coherent(place_bid(ledger, now, sender, funds, auction_id)->Ok_0.ledger),
{
    lemma_margin_is_no_loss(bid_floor_of(ledger.items[auction_id]), ledger.config.bid_margin);
}

proof fn lemma_buy_keeps_coherence(
    ledger: LedgerView,
    now: u64,
    sender: Seq<char>,
    funds: Seq<Coin>,
    auction_id: u64,
)
    requires
        coherent(ledger),
        instant_buy(ledger, now, sender, funds, auction_id) is Ok,
    ensures
        coherent(instant_buy(ledger, now, sender, funds, auction_id)->Ok_0.ledger),
{
}

proof fn lemma_retract_keeps_coherence(
    ledger: LedgerView,
    tax: TaxInfo,
    now: u64,
    sender: Seq<char>,
    auction_id: u64,
)
    requires
        coherent(ledger),
        retract(ledger, tax, now, sender, auction_id) is Ok,
    ensures
        coherent(retract(ledger, tax, now, sender, auction_id)->Ok_0.ledger),
{
}

proof fn lemma_withdraw_keeps_coherence(
    ledger: LedgerView,
    querier: Querier,
    now: u64,
    sender: Seq<char>,
    auction_id: u64,
)
    requires
        coherent(ledger),
        withdraw(ledger, querier, now, sender, auction_id) is Ok,
    ensures
        coherent(withdraw(ledger, querier, now, sender, auction_id)->Ok_0.ledger),
{
}

proof fn lemma_cancel_keeps_coherence(
    ledger: LedgerView,
    tax: TaxInfo,
    now: u64,
    sender: Seq<char>,
    funds: Seq<Coin>,
    auction_id: u64,
)
    requires
        coherent(ledger),
        cancel(ledger, tax, now, sender, funds, auction_id) is Ok,
    ensures
        coherent(cancel(ledger, tax, now, sender, funds, auction_id)->Ok_0.ledger),
{
}

proof fn lemma_create_keeps_coherence(
    ledger: LedgerView,
    now: u64,
    marketplace: Seq<char>,
    nft_contract: Seq<char>,
    creator: Seq<char>,
    token_id: Seq<char>,
    listing: Listing,
)
    requires
        coherent(ledger),
        create_auction(ledger, now, marketplace, nft_contract, creator, token_id, listing) is Ok,
    ensures
        coherent(
            create_auction(
                ledger,
                now,
                marketplace,
                nft_contract,
                creator,
                token_id,
                listing,
            )->Ok_0.ledger,
        ),
{
}

proof fn lemma_register_keeps_coherence(
    ledger: LedgerView,
    now: u64,
    sender: Seq<char>,
    sent: u128,
    auction_id: u64,
)
    requires
        coherent(ledger),
        register(ledger, now, sender, sent, auction_id) is Ok,
    ensures
        coherent(register(ledger, now, sender, sent, auction_id)->Ok_0.ledger),
{
}

/// Every operation keeps a coherent ledger coherent.
pub proof fn law_operations_keep_coherence(
    ledger: LedgerView,
    querier: Querier,
    env: Env,
    info: MessageInfo,
    msg: ExecuteMsg,
)
    requires
        coherent(ledger),
        executed(ledger, querier, env, info, msg) is Ok,
    ensures
        coherent(executed(ledger, querier, env, info, msg)->Ok_0.ledger),
{
    match msg {
        ExecuteMsg::PlaceBid { auction_id } => {
            lemma_bid_keeps_coherence(ledger, env.time, info.sender@, info.funds@, auction_id);
        },
        ExecuteMsg::InstantBuy { auction_id } => {
            lemma_buy_keeps_coherence(ledger, env.time, info.sender@, info.funds@, auction_id);
        },
        ExecuteMsg::RetractBids { auction_id } => {
            lemma_retract_keeps_coherence(
                ledger,
                querier.tax,
                env.time,
                info.sender@,
                auction_id,
            );
        },
        ExecuteMsg::WithdrawNft { auction_id } => {
            lemma_withdraw_keeps_coherence(ledger, querier, env.time, info.sender@, auction_id);
        },
        ExecuteMsg::CancelAuction { auction_id } => {
            lemma_cancel_keeps_coherence(
                ledger,
                querier.tax,
                env.time,
                info.sender@,
                info.funds@,
                auction_id,
            );
        },
        ExecuteMsg::UpdateRoyalty { fee, recipient } => {},
        ExecuteMsg::ReceiveNft(wrapper) => {
            match wrapper.msg {
                ReceiveMsg::CreateAuctionNft {
                    start_price,
                    start_time,
                    end_time,
                    charity,
                    instant_buy,
                    reserve_price,
                    private_sale,
                } => {
                    lemma_create_keeps_coherence(
                        ledger,
                        env.time,
                        env.contract_address@,
                        info.sender@,
                        wrapper.sender@,
                        wrapper.token_id@,
                        Listing {
                            start_price,
                            start_time,
                            end_time,
                            charity: charity_response_of(charity),
                            instant_buy,
                            reserve_price,
                            private_sale,
                        },
                    );
                },
                _ => {},
            }
        },
        ExecuteMsg::Receive(wrapper) => {
            match wrapper.msg {
                ReceiveMsg::RegisterPrivateSale { auction_id } => {
                    lemma_register_keeps_coherence(
                        ledger,
                        env.time,
                        wrapper.sender@,
                        wrapper.amount,
                        auction_id,
                    );
                },
                _ => {},
            }
        },
    }
}

/// The margin on an amount is no less than nothing.
proof fn lemma_margin_is_no_loss(amount: u128, rate: Decimal)
    ensures
        mul_floor(amount as int, rate) >= 0,
{
    assert(amount * rate.atomics >= 0) by (nonlinear_arith)
        requires
            amount >= 0,
            rate.atomics >= 0,
    ;
    vstd::arithmetic::div_mod::lemma_div_pos_is_pos(
        amount * rate.atomics,
        DECIMAL_FRACTIONAL as int,
    );
}

/// A report of the host keeps a coherent ledger coherent.
pub proof fn law_reports_keep_coherence(ledger: LedgerView, marketplace: Seq<char>, msg: Reply)
    requires
        coherent(ledger),
        replied(ledger, marketplace, msg) is Ok,
    ensures
        coherent(replied(ledger, marketplace, msg)->Ok_0.ledger),
{
}

/// A new auction gets a number that no auction has: on a coherent ledger,
/// creating an auction replaces none.
pub proof fn law_new_auction_replaces_none(
    ledger: LedgerView,
    now: u64,
    marketplace: Seq<char>,
    nft_contract: Seq<char>,
    creator: Seq<char>,
    token_id: Seq<char>,
    listing: Listing,
)
    requires
        coherent(ledger),
        create_auction(ledger, now, marketplace, nft_contract, creator, token_id, listing) is Ok,
    ensures
        !ledger.items.contains_key(ledger.state.counter_items),
{
}

/// What an auction is created with stays as it is: no operation changes the
/// creator, the asset, the start, the prices, the charity or the kind of
/// sale of an auction, and no operation makes a settled auction unsettled.
pub open spec fn same_listing(before: ItemInfoView, after: ItemInfoView) -> bool {
    &&& after.creator == before.creator
    &&& after.nft_contract == before.nft_contract
    &&& after.nft_id == before.nft_id
    &&& after.start_time == before.start_time
    &&& after.start_price == before.start_price
    &&& after.instant_buy == before.instant_buy
    &&& after.reserve_price == before.reserve_price
    &&& after.charity == before.charity
    &&& after.private_sale == before.private_sale
    &&& before.resolved ==> after.resolved
}

/// On a coherent ledger, no operation lowers the highest bid of an auction,
/// takes a bid off the count, or changes what the auction was created with.
pub proof fn law_highest_bid_never_falls(
    ledger: LedgerView,
    querier: Querier,
    env: Env,
    info: MessageInfo,
    msg: ExecuteMsg,
    auction_id: u64,
)
    requires
        coherent(ledger),
        executed(ledger, querier, env, info, msg) is Ok,
        ledger.items.contains_key(auction_id),
    ensures
        ({
            let before = ledger.items[auction_id];
            let after = executed(ledger, querier, env, info, msg)->Ok_0.ledger.items[auction_id];
            &&& amount_or_zero(after.highest_bid) >= amount_or_zero(before.highest_bid)
            &&& before.highest_bid is Some ==> after.highest_bid is Some
            &&& after.total_bids >= before.total_bids
            &&& same_listing(before, after)
        }),
{
    lemma_margin_is_no_loss(bid_floor_of(ledger.items[auction_id]), ledger.config.bid_margin);
}

} // verus!
