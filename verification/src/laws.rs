//! What holds of the marketplace whatever the ledger and whoever calls.
//!
//! Each law is stated over the spec functions that say what the operations
//! do, and which the operations are proved to follow.

use crate::admission::{register, required_deposit_of};
use crate::auction::{cancel, create_auction, Listing};
use crate::bidding::{amount_or_zero, bid_floor_of, instant_buy, place_bid, retract};
use crate::contract::{awaits_token, executed, replied};
use crate::error::ContractError;
use crate::host::{Coin, Env, InstructionView, MessageInfo, Querier, Reply};
use crate::msg::ExecuteMsg;
use crate::money::{
    checked_mul_floor, lemma_ratio_floor_bounded, mul_floor, Decimal, DECIMAL_FRACTIONAL,
};
use crate::rules::{
    bid_of, funds_amount, Outcome, LAST_MINUTE_BID_EXTRA_TIME, MAX_TIME_AUCTION,
    MIN_TIME_AUCTION,
};
use crate::settlement::{
    royalty_rate_of, royalty_terms_of, split_of, split_of_auction, winner_of, with_payment,
    withdraw,
};
use crate::state::{ItemInfoView, LedgerView};
use crate::taxation::{after_tax, TaxInfo};
use vstd::prelude::*;

verus! {

/// Rounding down never gives more than the nominal amount: a rate of at most
/// 1.0 applied to an amount yields an amount, and at most that amount.
pub proof fn law_share_is_at_most_amount(amount: u128, rate: Decimal)
    requires
        rate.atomics <= DECIMAL_FRACTIONAL,
    ensures
        0 <= mul_floor(amount as int, rate) <= amount,
        checked_mul_floor(amount, rate) == Some(mul_floor(amount as int, rate) as u128),
{
    lemma_ratio_floor_bounded(amount as int, rate.atomics as int, DECIMAL_FRACTIONAL as int);
}

/// The parts of a winning bid add up to the bid: nothing is lost and
/// nothing is made, and what rounding leaves over is in the creator's part.
pub proof fn law_split_conserves_bid(
    bid: u128,
    royalty_rate: Decimal,
    fee_rate: Decimal,
    charity_rate: Option<Decimal>,
)
    requires
        split_of(bid, royalty_rate, fee_rate, charity_rate) is Some,
    ensures
        ({
            let split = split_of(bid, royalty_rate, fee_rate, charity_rate).unwrap();
            &&& split.net + split.royalty + split.fee + split.charity == bid
            &&& split.royalty == mul_floor(bid as int, royalty_rate)
            &&& split.fee == mul_floor(bid as int, fee_rate)
            &&& charity_rate is None ==> split.charity == 0
        }),
{
}

/// How many of the instructions hand over an asset.
pub open spec fn asset_transfer_count(messages: Seq<InstructionView>) -> nat
    decreases messages.len(),
{
    if messages.len() == 0 {
        0
    } else {
        asset_transfer_count(messages.drop_last()) + if messages.last() is TransferNft {
            1nat
        } else {
            0nat
        }
    }
}

proof fn lemma_count_push(messages: Seq<InstructionView>, message: InstructionView)
    ensures
        asset_transfer_count(messages.push(message)) == asset_transfer_count(messages) + if message is TransferNft {
            1nat
        } else {
            0nat
        },
{
    assert(messages.push(message).drop_last() =~= messages);
}

proof fn lemma_count_with_payment(
    messages: Seq<InstructionView>,
    to: Seq<char>,
    amount: u128,
    denom: Seq<char>,
    tax: TaxInfo,
)
    ensures
        asset_transfer_count(with_payment(messages, to, amount, denom, tax))
            == asset_transfer_count(messages),
{
    if amount != 0 {
        lemma_count_push(
            messages,
            InstructionView::Send {
                to_address: to,
                amount: after_tax(amount, tax).unwrap(),
                denom,
            },
        );
    }
}

proof fn lemma_count_transfer_alone(message: InstructionView)
    requires
        message is TransferNft,
    ensures
        asset_transfer_count(seq![message]) == 1,
{
    lemma_count_push(Seq::empty(), message);
}

/// Who is handed the asset of an auction that is settled: the winner, or the
/// creator where nobody has won.
pub open spec fn asset_recipient(item: ItemInfoView) -> Seq<char> {
    match winner_of(item) {
        Some(w) => w,
        None => item.creator,
    }
}

/// Every settlement hands the asset over exactly once, as the first thing
/// it asks for: to the winner, or back to the creator where nobody has won.
/// It marks the auction as settled and changes nothing else of it. Where a
/// winner other than the creator is paid out, the parts of the bid add up to
/// the bid, and each part that is not zero has someone to go to.
pub proof fn law_settlement_conserves(
    ledger: LedgerView,
    querier: Querier,
    now: u64,
    sender: Seq<char>,
    auction_id: u64,
)
    requires
        withdraw(ledger, querier, now, sender, auction_id) is Ok,
    ensures
        ({
            let outcome = withdraw(ledger, querier, now, sender, auction_id)->Ok_0;
            let item = ledger.items[auction_id];
            let messages = outcome.response.messages;
            &&& asset_transfer_count(messages) == 1
            &&& messages.len() >= 1
            &&& messages[0] == InstructionView::TransferNft {
                contract: item.nft_contract,
                recipient: asset_recipient(item),
                token_id: item.nft_id,
            }
            &&& outcome.ledger.items[auction_id] == (ItemInfoView { resolved: true, ..item })
            &&& (winner_of(item) is None || winner_of(item).unwrap() == item.creator)
                ==> messages.len() == 1
            &&& (winner_of(item) is Some && winner_of(item).unwrap() != item.creator) ==> {
                let terms = royalty_terms_of(ledger, querier);
                let split = split_of_auction(ledger, querier, item);
                &&& split is Some
                &&& split.unwrap().net + split.unwrap().royalty + split.unwrap().fee
                    + split.unwrap().charity == item.highest_bid.unwrap()
                &&& terms is None ==> split.unwrap().royalty == 0
                &&& item.charity is None ==> split.unwrap().charity == 0
            }
        }),
{
    let item = ledger.items[auction_id];
    let winner = winner_of(item);
    let transfer = InstructionView::TransferNft {
        contract: item.nft_contract,
        recipient: asset_recipient(item),
        token_id: item.nft_id,
    };
    lemma_count_transfer_alone(transfer);
    if winner is Some && winner.unwrap() != item.creator {
        let bid = item.highest_bid.unwrap();
        let terms = royalty_terms_of(ledger, querier);
        let split = split_of_auction(ledger, querier, item).unwrap();
        let reward = checked_mul_floor(bid, ledger.config.sity_full_rewards).unwrap();
        let denom = ledger.config.denom;
        let tax = querier.tax;
        let m0 = seq![transfer];
        let mint_creator = InstructionView::Mint {
            contract: ledger.state.cw20_address,
            recipient: item.creator,
            amount: reward,
        };
        let mint_winner = InstructionView::Mint {
            contract: ledger.state.cw20_address,
            recipient: winner.unwrap(),
            amount: reward,
        };
        let m1 = if bid == 0 {
            m0
        } else {
            m0.push(mint_creator).push(mint_winner)
        };
        lemma_count_push(m0, mint_creator);
        lemma_count_push(m0.push(mint_creator), mint_winner);
        let m2 = with_payment(m1, item.creator, split.net, denom, tax);
        lemma_count_with_payment(m1, item.creator, split.net, denom, tax);
        let m3 = match terms {
            Some(t) => with_payment(m2, t.0, split.royalty, denom, tax),
            None => m2,
        };
        if terms is Some {
            lemma_count_with_payment(m2, terms.unwrap().0, split.royalty, denom, tax);
        }
        let m4 = with_payment(m3, ledger.config.lota_contract, split.fee, denom, tax);
        lemma_count_with_payment(m3, ledger.config.lota_contract, split.fee, denom, tax);
        if item.charity is Some {
            lemma_count_with_payment(m4, item.charity.unwrap().address, split.charity, denom, tax);
        }
        if terms is None {
            assert(mul_floor(bid as int, royalty_rate_of(terms)) == 0) by (nonlinear_arith)
                requires
                    royalty_rate_of(terms).atomics == 0,
            ;
        }
    }
}

/// A product that is rounded down grows with the amount.
proof fn lemma_mul_floor_monotonic(a: u128, b: u128, rate: Decimal)
    requires
        a <= b,
    ensures
        0 <= mul_floor(a as int, rate) <= mul_floor(b as int, rate),
{
    assert(0 <= a * rate.atomics <= b * rate.atomics) by (nonlinear_arith)
        requires
            0 <= a <= b,
            0 <= rate.atomics,
    ;
}

/// Every accepted bid becomes the highest bid of its auction, and it is at
/// least the highest bid before it with the margin on that: the highest bid
/// of an auction never falls under bidding.
pub proof fn law_bids_rise_by_margin(
    ledger: LedgerView,
    now: u64,
    sender: Seq<char>,
    funds: Seq<Coin>,
    auction_id: u64,
)
    requires
        place_bid(ledger, now, sender, funds, auction_id) is Ok,
    ensures
        ({
            let before = ledger.items[auction_id];
            let after = place_bid(ledger, now, sender, funds, auction_id)->Ok_0.ledger.items[auction_id];
            let standing = amount_or_zero(before.highest_bid);
            &&& after.highest_bid is Some
            &&& after.highest_bidder == Some(sender)
            &&& after.highest_bid.unwrap() >= standing + mul_floor(
                standing as int,
                ledger.config.bid_margin,
            )
            &&& after.highest_bid.unwrap() >= standing
            &&& after.highest_bid.unwrap() >= amount_or_zero(before.start_price)
            &&& after.total_bids == before.total_bids + 1
        }),
{
    let before = ledger.items[auction_id];
    lemma_mul_floor_monotonic(
        amount_or_zero(before.highest_bid),
        bid_floor_of(before),
        ledger.config.bid_margin,
    );
}

/// A bid that is accepted less than the extension before the end of its
/// auction moves the end later by exactly the extension; any other accepted
/// bid leaves the end where it was.
pub proof fn law_late_bid_extends_auction(
    ledger: LedgerView,
    now: u64,
    sender: Seq<char>,
    funds: Seq<Coin>,
    auction_id: u64,
)
    requires
        place_bid(ledger, now, sender, funds, auction_id) is Ok,
    ensures
        ({
            let before = ledger.items[auction_id];
            let after = place_bid(ledger, now, sender, funds, auction_id)->Ok_0.ledger.items[auction_id];
            &&& now < before.end_time
            &&& before.end_time - now < LAST_MINUTE_BID_EXTRA_TIME ==> after.end_time
                == before.end_time + LAST_MINUTE_BID_EXTRA_TIME
            &&& before.end_time - now >= LAST_MINUTE_BID_EXTRA_TIME ==> after.end_time
                == before.end_time
        }),
{
}

/// An escrow is paid out once: after a retraction, no retraction of the same
/// bidder on the same auction succeeds, whenever it is asked for and
/// whatever the tax is then.
pub proof fn law_retract_pays_once(
    ledger: LedgerView,
    tax: TaxInfo,
    now: u64,
    sender: Seq<char>,
    auction_id: u64,
    later_tax: TaxInfo,
    later: u64,
)
    requires
        retract(ledger, tax, now, sender, auction_id) is Ok,
    ensures
        ({
            let after = retract(ledger, tax, now, sender, auction_id)->Ok_0.ledger;
            &&& bid_of(after, auction_id, sender) is Some
            &&& bid_of(after, auction_id, sender).unwrap().total_bid == 0
            &&& bid_of(after, auction_id, sender).unwrap().resolved
            &&& retract(after, later_tax, later, sender, auction_id) == Err::<
                Outcome,
                ContractError,
            >(ContractError::Unauthorized {  })
        }),
{
}

/// An auction is settled once: after a settlement, no settlement of the same
/// auction succeeds, whoever asks for it and whenever.
pub proof fn law_withdraw_settles_once(
    ledger: LedgerView,
    querier: Querier,
    now: u64,
    sender: Seq<char>,
    auction_id: u64,
    later_querier: Querier,
    later: u64,
    later_sender: Seq<char>,
)
    requires
        withdraw(ledger, querier, now, sender, auction_id) is Ok,
    ensures
        ({
            let after = withdraw(ledger, querier, now, sender, auction_id)->Ok_0.ledger;
            withdraw(after, later_querier, later, later_sender, auction_id) == Err::<
                Outcome,
                ContractError,
            >(ContractError::Unauthorized {  })
        }),
{
}

/// On a private sale, a principal without an escrow record, which is to say
/// one that has not registered, can neither bid nor buy. Where nothing else
/// stands in the way, the error names the deposit that registering takes.
pub proof fn law_private_sale_admits_registered_only(
    ledger: LedgerView,
    now: u64,
    sender: Seq<char>,
    funds: Seq<Coin>,
    auction_id: u64,
)
    requires
        ledger.items.contains_key(auction_id),
        ledger.items[auction_id].private_sale,
        bid_of(ledger, auction_id, sender) is None,
    ensures
        place_bid(ledger, now, sender, funds, auction_id) is Err,
        instant_buy(ledger, now, sender, funds, auction_id) is Err,
        ({
            let item = ledger.items[auction_id];
            let open_to_sender = now < item.end_time && item.creator != sender;
            let deposit = required_deposit_of(ledger.config, item);
            &&& (open_to_sender && item.start_time <= now && funds_amount(
                funds,
                ledger.config.denom,
            ) is Ok && deposit is Some) ==> place_bid(ledger, now, sender, funds, auction_id)
                == Err::<Outcome, ContractError>(
                ContractError::PrivateSaleRestriction(deposit.unwrap()),
            )
            &&& (open_to_sender && deposit is Some) ==> instant_buy(
                ledger,
                now,
                sender,
                funds,
                auction_id,
            ) == Err::<Outcome, ContractError>(
                ContractError::PrivateSaleRestriction(deposit.unwrap()),
            )
        }),
{
}

/// The deposit that the error names is the one that registering takes: a
/// registration succeeds only with exactly the required deposit, and it
/// leaves the principal with an escrow record, so that the principal is
/// admitted from then on. It counts as one more bid on the auction and
/// changes nothing else of the auction.
pub proof fn law_registration_takes_required_deposit(
    ledger: LedgerView,
    now: u64,
    sender: Seq<char>,
    sent: u128,
    auction_id: u64,
)
    requires
        register(ledger, now, sender, sent, auction_id) is Ok,
    ensures
        ({
            let after = register(ledger, now, sender, sent, auction_id)->Ok_0.ledger;
            &&& required_deposit_of(ledger.config, ledger.items[auction_id]) == Some(sent)
            &&& bid_of(ledger, auction_id, sender) is None
            &&& bid_of(after, auction_id, sender) is Some
            &&& after.items[auction_id].total_bids == ledger.items[auction_id].total_bids + 1
            &&& after.items[auction_id] == (ItemInfoView {
                total_bids: after.items[auction_id].total_bids,
                ..ledger.items[auction_id]
            })
            &&& register(after, now, sender, sent, auction_id) == Err::<
                Outcome,
                ContractError,
            >(ContractError::Unauthorized {  })
        }),
{
}

/// The prices of an auction are in order: its start price is below its
/// instant-buy price and not above its reserve price; its instant-buy price
/// is not zero and not below its reserve price; and its charity, if it has
/// one, takes more than nothing and at most everything.
pub open spec fn prices_in_order(item: ItemInfoView) -> bool {
    &&& (item.start_price is Some && item.instant_buy is Some) ==> item.start_price.unwrap()
        < item.instant_buy.unwrap()
    &&& (item.start_price is Some && item.reserve_price is Some) ==> item.start_price.unwrap()
        <= item.reserve_price.unwrap()
    &&& (item.instant_buy is Some && item.reserve_price is Some) ==> item.instant_buy.unwrap()
        >= item.reserve_price.unwrap()
    &&& item.instant_buy is Some ==> item.instant_buy.unwrap() > 0
    &&& item.charity is Some ==> 0 < item.charity.unwrap().fee_percentage.atomics
        <= DECIMAL_FRACTIONAL
}

/// An auction is well formed: it ends later than it starts, by at least the
/// shortest and at most the longest duration, and its prices are in order.
pub open spec fn well_formed(item: ItemInfoView) -> bool {
    &&& item.start_time < item.end_time
    &&& MIN_TIME_AUCTION <= item.end_time - item.start_time <= MAX_TIME_AUCTION
    &&& prices_in_order(item)
}

/// Every auction that is created is well formed, has no bid and is not
/// settled; it gets the number of the counter, which goes up by one, and no
/// other auction changes.
pub proof fn law_created_auction_is_well_formed(
    ledger: LedgerView,
    now: u64,
    marketplace: Seq<char>,
    nft_contract: Seq<char>,
    creator: Seq<char>,
    token_id: Seq<char>,
    listing: Listing,
)
    requires
        create_auction(ledger, now, marketplace, nft_contract, creator, token_id, listing) is Ok,
    ensures
        ({
            let after = create_auction(
                ledger,
                now,
                marketplace,
                nft_contract,
                creator,
                token_id,
                listing,
            )->Ok_0.ledger;
            let id = ledger.state.counter_items;
            &&& after.items.contains_key(id)
            &&& well_formed(after.items[id])
            &&& after.items[id].highest_bid is None
            &&& after.items[id].highest_bidder is None
            &&& after.items[id].total_bids == 0
            &&& !after.items[id].resolved
            &&& after.state.counter_items == id + 1
            &&& forall|other: u64| other != id ==> (after.items.contains_key(other)
                <==> ledger.items.contains_key(other))
            &&& forall|other: u64|
                other != id && ledger.items.contains_key(other) ==> after.items[other]
                    == ledger.items[other]
        }),
{
}

/// A settled auction is closed: from the time of its settlement on it takes
/// no bid and no instant buy, and it cannot be cancelled, so that its highest
/// bid and its highest bidder stay as they are.
pub proof fn law_settled_auction_is_closed(
    ledger: LedgerView,
    querier: Querier,
    now: u64,
    sender: Seq<char>,
    auction_id: u64,
    later: u64,
    later_sender: Seq<char>,
    funds: Seq<Coin>,
    tax: TaxInfo,
)
    requires
        withdraw(ledger, querier, now, sender, auction_id) is Ok,
        now <= later,
    ensures
        ({
            let after = withdraw(ledger, querier, now, sender, auction_id)->Ok_0.ledger;
            &&& place_bid(after, later, later_sender, funds, auction_id) is Err
            &&& instant_buy(after, later, later_sender, funds, auction_id) is Err
            &&& cancel(after, tax, later, later_sender, funds, auction_id) is Err
        }),
{
}

/// The address of the reward token is recorded once: after a report that
/// named the token, every further report is rejected.
pub proof fn law_token_is_named_once(
    ledger: LedgerView,
    marketplace: Seq<char>,
    msg: Reply,
    later: Reply,
)
    requires
        replied(ledger, marketplace, msg) is Ok,
        replied(ledger, marketplace, msg)->Ok_0.ledger.state.cw20_address != marketplace,
    ensures
        ({
            let after = replied(ledger, marketplace, msg)->Ok_0.ledger;
            &&& awaits_token(ledger, marketplace)
            &&& !awaits_token(after, marketplace)
            &&& replied(after, marketplace, later) == Err::<Outcome, ContractError>(
                ContractError::Unauthorized {  },
            )
        }),
{
}

/// `shorter` is the beginning of `longer`.
pub open spec fn is_prefix_of<T>(shorter: Seq<T>, longer: Seq<T>) -> bool {
    shorter.len() <= longer.len() && longer.subrange(0, shorter.len() as int) == shorter
}

/// The ledger `after` holds everything that the ledger `before` holds: the
/// same parameters, every auction, every escrow record and every royalty
/// record that was there, with every history begun as it was; and its
/// counter of auctions is no lower.
pub open spec fn extends(before: LedgerView, after: LedgerView) -> bool {
    &&& after.config == before.config
    &&& after.cancellation == before.cancellation
    &&& after.state.counter_items >= before.state.counter_items
    &&& forall|id: u64| before.items.contains_key(id) ==> after.items.contains_key(id)
    &&& forall|key: (u64, Seq<char>)|
        before.bids.contains_key(key) ==> after.bids.contains_key(key)
    &&& forall|who: Seq<char>| before.royalty.contains_key(who) ==> after.royalty.contains_key(who)
    &&& forall|id: u64|
        before.histories.contains_key(id) ==> after.histories.contains_key(id) && is_prefix_of(
            before.histories[id],
            after.histories[id],
        )
    &&& forall|key: (u64, Seq<char>)|
        before.histories_bidder.contains_key(key) ==> after.histories_bidder.contains_key(key)
            && is_prefix_of(before.histories_bidder[key], after.histories_bidder[key])
}

proof fn lemma_push_extends<T>(history: Seq<T>, entry: T)
    ensures
        is_prefix_of(history, history.push(entry)),
        is_prefix_of(history, history),
{
    assert(history.push(entry).subrange(0, history.len() as int) =~= history);
    assert(history.subrange(0, history.len() as int) =~= history);
}

/// The ledger only grows: no operation removes an auction, an escrow record,
/// a royalty record or an entry of a history, changes a parameter of the
/// marketplace or lowers the counter of auctions. The histories are written
/// at their end only.
pub proof fn law_ledger_only_grows(
    ledger: LedgerView,
    querier: Querier,
    env: Env,
    info: MessageInfo,
    msg: ExecuteMsg,
)
    requires
        executed(ledger, querier, env, info, msg) is Ok,
    ensures
        extends(ledger, executed(ledger, querier, env, info, msg)->Ok_0.ledger),
{
    let after = executed(ledger, querier, env, info, msg)->Ok_0.ledger;
    assert forall|id: u64| ledger.histories.contains_key(id) implies after.histories.contains_key(
        id,
    ) && is_prefix_of(ledger.histories[id], after.histories[id]) by {
        lemma_push_extends(ledger.histories[id], after.histories[id].last());
    }
    assert forall|key: (u64, Seq<char>)|
        ledger.histories_bidder.contains_key(key) implies after.histories_bidder.contains_key(key)
        && is_prefix_of(ledger.histories_bidder[key], after.histories_bidder[key]) by {
        lemma_push_extends(ledger.histories_bidder[key], after.histories_bidder[key].last());
    }
}

/// What a bidder pays in adds up: an accepted bid or instant buy raises the
/// escrow of the sender by exactly the amount sent, counts as one more bid of
/// the sender, and leaves every other escrow record as it was.
pub proof fn law_escrow_adds_up(
    ledger: LedgerView,
    now: u64,
    sender: Seq<char>,
    funds: Seq<Coin>,
    auction_id: u64,
    buying: bool,
)
    requires
        bid_or_buy(ledger, now, sender, funds, auction_id, buying) is Ok,
    ensures
        ({
            let after = bid_or_buy(ledger, now, sender, funds, auction_id, buying)->Ok_0.ledger;
            let sent = funds_amount(funds, ledger.config.denom);
            let before = bid_of(ledger, auction_id, sender);
            let record = bid_of(after, auction_id, sender);
            &&& sent is Ok
            &&& record is Some
            &&& record.unwrap().total_bid == sent->Ok_0 + match before {
                Some(b) => b.total_bid as int,
                None => 0,
            }
            &&& record.unwrap().bid_counter == 1 + match before {
                Some(b) => b.bid_counter as int,
                None => 0,
            }
            &&& after.items[auction_id].highest_bid == Some(record.unwrap().total_bid)
            &&& forall|key: (u64, Seq<char>)|
                key != (auction_id, sender) ==> bid_of(after, key.0, key.1) == bid_of(
                    ledger,
                    key.0,
                    key.1,
                )
        }),
{
}

/// What placing a bid does, or what an instant buy does.
pub open spec fn bid_or_buy(
    ledger: LedgerView,
    now: u64,
    sender: Seq<char>,
    funds: Seq<Coin>,
    auction_id: u64,
    buying: bool,
) -> Result<Outcome, ContractError> {
    if buying {
        instant_buy(ledger, now, sender, funds, auction_id)
    } else {
        place_bid(ledger, now, sender, funds, auction_id)
    }
}

/// A retraction sends back the whole escrow, less the host's tax, and asks
/// for nothing else: it mints no reward, whatever the reserve price of the
/// auction and whoever has won. It empties the escrow, and it leaves every
/// other escrow record and every auction as it was.
pub proof fn law_retract_returns_whole_escrow(
    ledger: LedgerView,
    tax: TaxInfo,
    now: u64,
    sender: Seq<char>,
    auction_id: u64,
)
    requires
        retract(ledger, tax, now, sender, auction_id) is Ok,
    ensures
        ({
            let outcome = retract(ledger, tax, now, sender, auction_id)->Ok_0;
            let escrow = bid_of(ledger, auction_id, sender).unwrap().total_bid;
            &&& escrow > 0
            &&& now >= ledger.items[auction_id].end_time
            &&& after_tax(escrow, tax) is Some
            &&& outcome.response.messages == seq![
                InstructionView::Send {
                    to_address: sender,
                    amount: after_tax(escrow, tax).unwrap(),
                    denom: ledger.config.denom,
                },
            ]
            &&& outcome.ledger.items == ledger.items
            &&& forall|key: (u64, Seq<char>)|
                key != (auction_id, sender) ==> bid_of(outcome.ledger, key.0, key.1) == bid_of(
                    ledger,
                    key.0,
                    key.1,
                )
        }),
{
}

/// Cancelling ends an auction without settling it: the auction ends at the
/// time of the cancellation, nobody is bound to buy, the highest bid stays
/// on record, and no escrow changes, so that every bidder can take the
/// escrow back.
pub proof fn law_cancel_ends_without_settling(
    ledger: LedgerView,
    tax: TaxInfo,
    now: u64,
    sender: Seq<char>,
    funds: Seq<Coin>,
    auction_id: u64,
)
    requires
        cancel(ledger, tax, now, sender, funds, auction_id) is Ok,
    ensures
        ({
            let after = cancel(ledger, tax, now, sender, funds, auction_id)->Ok_0.ledger;
            let before = ledger.items[auction_id];
            &&& after.items[auction_id] == (ItemInfoView {
                end_time: now,
                highest_bidder: None,
                ..before
            })
            &&& after.items[auction_id].resolved == before.resolved
            &&& after.bids == ledger.bids
            &&& before.highest_bid is Some ==> funds_amount(funds, ledger.config.denom) == Ok::<
                u128,
                ContractError,
            >(
                mul_floor(
                    before.highest_bid.unwrap() as int,
                    ledger.cancellation.cancellation_fee,
                ) as u128,
            )
        }),
{
}

} // verus!
