//! Bidding: placing a bid, buying at the instant-buy price, and taking back
//! the escrow of a bid that did not win.
//!
//! What a bidder pays in adds up in the bidder's escrow record, and the bid
//! that counts is the whole escrow. A new bid has to exceed the standing one
//! by the margin. A bid placed shortly before the end extends the auction.
//! Who takes an escrow back gets the escrow and no reward.

use crate::admission::{registration_required, require_registration};
use crate::error::ContractError;
use crate::host::{
    attr, AttributeView, Coin, Env, Instruction, InstructionView, MessageInfo, Querier,
    Response, ResponseView,
};
use crate::money::{add_amounts, checked_mul_floor, checked_sum, mul_decimal};
use crate::rules::{
    bid_of, funds_amount, holds, next_count, sent_funds, Outcome, LAST_MINUTE_BID_EXTRA_TIME,
};
use crate::state::{
    BidInfo, Config, ConfigView, HistoryBidInfo, HistoryBidView, HistoryInfo, ItemInfo,
    ItemInfoView, Ledger, LedgerView,
};
use crate::taxation::{after_tax, deduct_tax, TaxInfo};
use crate::text::{decimal_text, u128_to_string, u64_to_string};
use vstd::prelude::*;
use vstd::string::*;

verus! {

/// An amount that may be missing, read as zero where it is.
pub open spec fn amount_or_zero(amount: Option<u128>) -> u128 {
    match amount {
        Some(a) => a,
        None => 0,
    }
}

/// What a new bid is measured against: the start price or the highest bid,
/// whichever is more.
pub open spec fn bid_floor_of(item: ItemInfoView) -> u128 {
    if amount_or_zero(item.start_price) > amount_or_zero(item.highest_bid) {
        amount_or_zero(item.start_price)
    } else {
        amount_or_zero(item.highest_bid)
    }
}

/// The least escrow that a new bid has to reach: what it is measured
/// against, and the margin on that. `None` where that is no amount.
pub open spec fn min_bid_of(config: ConfigView, item: ItemInfoView) -> Option<u128> {
    match checked_mul_floor(bid_floor_of(item), config.bid_margin) {
        None => None,
        Some(margin) => checked_sum(bid_floor_of(item), margin),
    }
}

/// The least escrow that a new bid on the auction has to reach.
pub fn min_bid(config: &Config, item: &ItemInfo) -> (r: Option<u128>)
    ensures
        r == min_bid_of(config@, item@),
{
    let start: u128 = match item.start_price {
        Some(a) => a,
        None => 0,
    };
    let highest: u128 = match item.highest_bid {
        Some(a) => a,
        None => 0,
    };
    let floor: u128 = if start > highest {
        start
    } else {
        highest
    };
    match mul_decimal(floor, config.bid_margin) {
        None => None,
        Some(margin) => add_amounts(floor, margin),
    }
}

/// The escrow of a bidder once `sent` is paid in. `None` where that is no
/// amount.
pub open spec fn escrow_with(prior: Option<BidInfo>, sent: u128) -> Option<u128> {
    match prior {
        None => Some(sent),
        Some(bid) => checked_sum(bid.total_bid, sent),
    }
}

/// The escrow record of a bidder once a bid that brings the escrow to
/// `total` is accepted. `None` where the counter is at its limit.
pub open spec fn record_with(prior: Option<BidInfo>, total: u128) -> Option<BidInfo> {
    match prior {
        None => Some(BidInfo { bid_counter: 1, total_bid: total, sity_used: None, resolved: false }),
        Some(bid) => match next_count(bid.bid_counter) {
            None => None,
            Some(count) => Some(BidInfo { bid_counter: count, total_bid: total, ..bid }),
        },
    }
}

/// The end of the auction once a bid is accepted at the time `now`: later by
/// the extension where the bid comes within the last minutes, else as it
/// was. `None` where the later end is no time.
pub open spec fn end_after_bid(end_time: u64, now: u64) -> Option<u64> {
    if end_time - now < LAST_MINUTE_BID_EXTRA_TIME {
        if end_time + LAST_MINUTE_BID_EXTRA_TIME <= u64::MAX {
            Some((end_time + LAST_MINUTE_BID_EXTRA_TIME) as u64)
        } else {
            None
        }
    } else {
        Some(end_time)
    }
}

/// A history with one more entry; a history that was not begun is empty.
pub open spec fn history_with(history: Option<Seq<HistoryBidView>>, entry: HistoryBidView) -> Seq<
    HistoryBidView,
> {
    match history {
        Some(h) => h.push(entry),
        None => seq![entry],
    }
}

/// The history of the auction `id`, if one was begun.
pub open spec fn history_of(ledger: LedgerView, id: u64) -> Option<Seq<HistoryBidView>> {
    if ledger.histories.contains_key(id) {
        Some(ledger.histories[id])
    } else {
        None
    }
}

/// The history of `who` on the auction `id`, if one was begun.
pub open spec fn bidder_history_of(ledger: LedgerView, id: u64, who: Seq<char>) -> Option<
    Seq<HistoryBidView>,
> {
    if ledger.histories_bidder.contains_key((id, who)) {
        Some(ledger.histories_bidder[(id, who)])
    } else {
        None
    }
}

/// The ledger once a bid or an instant buy of `sender` on the auction `id`
/// is accepted: the auction and the sender's escrow record are replaced, and
/// both histories have one more entry.
pub open spec fn ledger_with_bid(
    ledger: LedgerView,
    id: u64,
    sender: Seq<char>,
    item: ItemInfoView,
    record: BidInfo,
    entry: HistoryBidView,
) -> LedgerView {
    LedgerView {
        items: ledger.items.insert(id, item),
        bids: ledger.bids.insert((id, sender), record),
        histories: ledger.histories.insert(id, history_with(history_of(ledger, id), entry)),
        histories_bidder: ledger.histories_bidder.insert(
            (id, sender),
            history_with(bidder_history_of(ledger, id, sender), entry),
        ),
        ..ledger
    }
}

/// The attributes of an accepted bid.
pub open spec fn bid_attributes(total: u128, sender: Seq<char>, auction_id: u64) -> Seq<
    AttributeView,
> {
    seq![
        attr("new_bid"@, decimal_text(total as nat)),
        attr("sender"@, sender),
        attr("auction_id"@, decimal_text(auction_id as nat)),
    ]
}

/// What placing a bid on the auction `auction_id` with the funds `funds`
/// does, at the time `now`.
///
/// It is rejected where the funds are not one coin of the settlement
/// currency, where the auction is unknown, is over or has not begun, where
/// the sender is its creator, where it is a private sale and the sender has
/// not registered, where the sender's escrow with this payment is below the
/// least bid, and where it reaches the instant-buy price. Otherwise the
/// sender becomes the highest bidder with the whole escrow as the bid, the
/// auction is extended where the bid comes late, and the bid is entered in
/// both histories.
pub open spec fn place_bid(
    ledger: LedgerView,
    now: u64,
    sender: Seq<char>,
    funds: Seq<Coin>,
    auction_id: u64,
) -> Result<Outcome, ContractError> {
    match funds_amount(funds, ledger.config.denom) {
        Err(e) => Err(e),
        Ok(sent) => if !ledger.items.contains_key(auction_id) {
            Err(ContractError::NotFound {  })
        } else {
            let item = ledger.items[auction_id];
            let prior = bid_of(ledger, auction_id, sender);
            if now >= item.end_time {
                Err(ContractError::EndTimeExpired {  })
            } else if item.start_time > now {
                Err(ContractError::AuctionNotStarted {  })
            } else if item.creator == sender {
                Err(ContractError::Unauthorized {  })
            } else if item.private_sale && prior is None {
                Err(registration_required(ledger.config, item))
            } else {
                match (min_bid_of(ledger.config, item), escrow_with(prior, sent)) {
                    (Some(least), Some(total)) => if total < least {
                        Err(ContractError::MinBid(least, total))
                    } else if item.instant_buy is Some && item.instant_buy.unwrap() <= total {
                        Err(ContractError::UseInstantBuy(item.instant_buy.unwrap(), total))
                    } else {
                        match (
                            next_count(item.total_bids),
                            end_after_bid(item.end_time, now),
                            record_with(prior, total),
                        ) {
                            (Some(count), Some(end_time), Some(record)) => Ok(
                                Outcome {
                                    ledger: ledger_with_bid(
                                        ledger,
                                        auction_id,
                                        sender,
                                        ItemInfoView {
                                            highest_bid: Some(total),
                                            highest_bidder: Some(sender),
                                            total_bids: count,
                                            end_time,
                                            ..item
                                        },
                                        record,
                                        HistoryBidView {
                                            bidder: sender,
                                            amount: total,
                                            time: now,
                                            instant_buy: false,
                                        },
                                    ),
                                    response: ResponseView {
                                        messages: Seq::empty(),
                                        attributes: bid_attributes(total, sender, auction_id),
                                    },
                                },
                            ),
                            _ => Err(ContractError::Overflow {  }),
                        }
                    },
                    _ => Err(ContractError::Overflow {  }),
                }
            }
        },
    }
}

/// The escrow record of a bidder once a bid that brings the escrow to
/// `total` is accepted.
fn next_record(prior: Option<BidInfo>, total: u128) -> (r: Option<BidInfo>)
    ensures
        r == record_with(prior, total),
{
    match prior {
        None => Some(BidInfo { bid_counter: 1, total_bid: total, sity_used: None, resolved: false }),
        Some(bid) => if bid.bid_counter < u64::MAX {
            Some(
                BidInfo {
                    bid_counter: bid.bid_counter + 1,
                    total_bid: total,
                    sity_used: bid.sity_used,
                    resolved: bid.resolved,
                },
            )
        } else {
            None
        },
    }
}

/// A history with one more entry.
fn extend_history(history: Option<HistoryInfo>, entry: HistoryBidInfo) -> (r: HistoryInfo)
    ensures
        r@ == history_with(
            match history {
                Some(h) => Some(h@),
                None => None,
            },
            entry@,
        ),
{
    match history {
        Some(h) => {
            let mut h = h;
            h.bids.push(entry);
            h
        },
        None => {
            let mut bids: Vec<HistoryBidInfo> = Vec::new();
            bids.push(entry);
            let h = HistoryInfo { bids };
            h
        },
    }
}

/// Enters an accepted bid or instant buy in the ledger.
fn enter_bid(
    ledger: &mut Ledger,
    id: u64,
    sender: &String,
    item: ItemInfo,
    record: BidInfo,
    amount: u128,
    time: u64,
    instant_buy: bool,
)
    ensures
        final(ledger)@ == ledger_with_bid(
            old(ledger)@,
            id,
            sender@,
            item@,
            record,
            HistoryBidView { bidder: sender@, amount, time, instant_buy },
        ),
{
    let bidder_history = extend_history(
        ledger.load_bidder_history(id, sender),
        HistoryBidInfo { bidder: sender.clone(), amount, time, instant_buy },
    );
    let history = extend_history(
        ledger.load_history(id),
        HistoryBidInfo { bidder: sender.clone(), amount, time, instant_buy },
    );
    ledger.save_item(id, item);
    ledger.save_bid(id, sender, record);
    ledger.save_bidder_history(id, sender, bidder_history);
    ledger.save_history(id, history);
}

/// Places a bid of the caller on the auction `auction_id` with the funds
/// sent along.
pub fn execute_place_bid(ledger: &mut Ledger, env: &Env, info: &MessageInfo, auction_id: u64) -> (res:
    Result<Response, ContractError>)
    ensures
        holds(
            old(ledger)@,
            final(ledger)@,
            res,
            place_bid(old(ledger)@, env.time, info.sender@, info.funds@, auction_id),
        ),
{
    let sent: u128 = match sent_funds(&info.funds, &ledger.config.denom) {
        Err(e) => {
            return Err(e);
        },
        Ok(sent) => sent,
    };
    let mut item = match ledger.load_item(auction_id) {
        None => {
            return Err(ContractError::NotFound {  });
        },
        Some(item) => item,
    };
    if env.time >= item.end_time {
        return Err(ContractError::EndTimeExpired {  });
    }
    if item.start_time > env.time {
        return Err(ContractError::AuctionNotStarted {  });
    }
    if item.creator == info.sender {
        return Err(ContractError::Unauthorized {  });
    }
    let prior = ledger.load_bid(auction_id, &info.sender);
    if item.private_sale && prior.is_none() {
        return Err(require_registration(&ledger.config, &item));
    }
    let least = min_bid(&ledger.config, &item);
    let escrow = match prior {
        None => Some(sent),
        Some(bid) => add_amounts(bid.total_bid, sent),
    };
    let (least, total): (u128, u128) = match (least, escrow) {
        (Some(least), Some(total)) => (least, total),
        _ => {
            return Err(ContractError::Overflow {  });
        },
    };
    if total < least {
        return Err(ContractError::MinBid(least, total));
    }
    match item.instant_buy {
        Some(price) => {
            if price <= total {
                return Err(ContractError::UseInstantBuy(price, total));
            }
        },
        None => {},
    }
    if item.total_bids == u64::MAX {
        return Err(ContractError::Overflow {  });
    }
    let end_time: u64 = if item.end_time - env.time < LAST_MINUTE_BID_EXTRA_TIME {
        match item.end_time.checked_add(LAST_MINUTE_BID_EXTRA_TIME) {
            Some(t) => t,
            None => {
                return Err(ContractError::Overflow {  });
            },
        }
    } else {
        item.end_time
    };
    let record = match next_record(prior, total) {
        Some(record) => record,
        None => {
            return Err(ContractError::Overflow {  });
        },
    };
    item.highest_bid = Some(total);
    item.highest_bidder = Some(info.sender.clone());
    item.total_bids = item.total_bids + 1;
    item.end_time = end_time;
    enter_bid(ledger, auction_id, &info.sender, item, record, total, env.time, false);
    let response = Response::new().add_attribute("new_bid", u128_to_string(total)).add_attribute(
        "sender",
        info.sender.clone(),
    ).add_attribute("auction_id", u64_to_string(auction_id));
    assert(response@.attributes =~= bid_attributes(total, info.sender@, auction_id));
    Ok(response)
}

/// The attributes of an instant buy.
pub open spec fn instant_buy_attributes(nft_id: Seq<char>, auction_id: u64) -> Seq<AttributeView> {
    seq![
        attr("instant_buy"@, "NFT"@),
        attr("nft_id"@, nft_id),
        attr("auction_id"@, decimal_text(auction_id as nat)),
    ]
}

/// What buying the asset of the auction `auction_id` at its instant-buy
/// price with the funds `funds` does, at the time `now`.
///
/// It is rejected where the auction is unknown or is over, where the sender
/// is its creator, where it is a private sale and the sender has not
/// registered, where the funds are not one coin of the settlement currency,
/// where the auction has no instant-buy price, and where the sender's escrow
/// with this payment is not exactly that price. Otherwise the auction ends
/// now with the sender as the highest bidder at that price, and the purchase
/// is entered in both histories.
pub open spec fn instant_buy(
    ledger: LedgerView,
    now: u64,
    sender: Seq<char>,
    funds: Seq<Coin>,
    auction_id: u64,
) -> Result<Outcome, ContractError> {
    if !ledger.items.contains_key(auction_id) {
        Err(ContractError::NotFound {  })
    } else {
        let item = ledger.items[auction_id];
        let prior = bid_of(ledger, auction_id, sender);
        if now >= item.end_time {
            Err(ContractError::EndTimeExpired {  })
        } else if item.creator == sender {
            Err(ContractError::Unauthorized {  })
        } else if item.private_sale && prior is None {
            Err(registration_required(ledger.config, item))
        } else {
            match funds_amount(funds, ledger.config.denom) {
                Err(e) => Err(e),
                Ok(sent) => match escrow_with(prior, sent) {
                    None => Err(ContractError::Overflow {  }),
                    Some(total) => match item.instant_buy {
                        None => Err(ContractError::Unauthorized {  }),
                        Some(price) => if price != total {
                            Err(ContractError::InaccurateFunds(price, total))
                        } else {
                            match (next_count(item.total_bids), record_with(prior, total)) {
                                (Some(count), Some(record)) => Ok(
                                    Outcome {
                                        ledger: ledger_with_bid(
                                            ledger,
                                            auction_id,
                                            sender,
                                            ItemInfoView {
                                                highest_bid: Some(price),
                                                highest_bidder: Some(sender),
                                                total_bids: count,
                                                end_time: now,
                                                ..item
                                            },
                                            record,
                                            HistoryBidView {
                                                bidder: sender,
                                                amount: total,
                                                time: now,
                                                instant_buy: true,
                                            },
                                        ),
                                        response: ResponseView {
                                            messages: Seq::empty(),
                                            attributes: instant_buy_attributes(
                                                item.nft_id,
                                                auction_id,
                                            ),
                                        },
                                    },
                                ),
                                _ => Err(ContractError::Overflow {  }),
                            }
                        },
                    },
                },
            }
        }
    }
}

/// Buys the asset of the auction `auction_id` for the caller at the
/// instant-buy price, with the funds sent along.
pub fn execute_instant_buy(ledger: &mut Ledger, env: &Env, info: &MessageInfo, auction_id: u64) -> (res:
    Result<Response, ContractError>)
    ensures
        holds(
            old(ledger)@,
            final(ledger)@,
            res,
            instant_buy(old(ledger)@, env.time, info.sender@, info.funds@, auction_id),
        ),
{
    let mut item = match ledger.load_item(auction_id) {
        None => {
            return Err(ContractError::NotFound {  });
        },
        Some(item) => item,
    };
    if env.time >= item.end_time {
        return Err(ContractError::EndTimeExpired {  });
    }
    if item.creator == info.sender {
        return Err(ContractError::Unauthorized {  });
    }
    let prior = ledger.load_bid(auction_id, &info.sender);
    if item.private_sale && prior.is_none() {
        return Err(require_registration(&ledger.config, &item));
    }
    let sent: u128 = match sent_funds(&info.funds, &ledger.config.denom) {
        Err(e) => {
            return Err(e);
        },
        Ok(sent) => sent,
    };
    let escrow = match prior {
        None => Some(sent),
        Some(bid) => add_amounts(bid.total_bid, sent),
    };
    let total: u128 = match escrow {
        Some(total) => total,
        None => {
            return Err(ContractError::Overflow {  });
        },
    };
    let price: u128 = match item.instant_buy {
        None => {
            return Err(ContractError::Unauthorized {  });
        },
        Some(price) => price,
    };
    if price != total {
        return Err(ContractError::InaccurateFunds(price, total));
    }
    if item.total_bids == u64::MAX {
        return Err(ContractError::Overflow {  });
    }
    let record = match next_record(prior, total) {
        Some(record) => record,
        None => {
            return Err(ContractError::Overflow {  });
        },
    };
    let response = Response::new().add_attribute(
        "instant_buy",
        String::from_str("NFT"),
    ).add_attribute("nft_id", item.nft_id.clone()).add_attribute(
        "auction_id",
        u64_to_string(auction_id),
    );
    assert(response@.attributes =~= instant_buy_attributes(item@.nft_id, auction_id));
    item.highest_bid = Some(price);
    item.highest_bidder = Some(info.sender.clone());
    item.total_bids = item.total_bids + 1;
    item.end_time = env.time;
    enter_bid(ledger, auction_id, &info.sender, item, record, total, env.time, true);
    Ok(response)
}

/// Whether `who` is bound to buy: `who` is the highest bidder and the bid is
/// not below the reserve price.
pub open spec fn is_bound_buyer(item: ItemInfoView, who: Seq<char>) -> bool {
    item.highest_bidder == Some(who) && amount_or_zero(item.highest_bid) >= amount_or_zero(
        item.reserve_price,
    )
}

/// The instructions of a retraction: the refund, reduced by the tax, and
/// nothing else. No reward is minted on an escrow that is taken back.
pub open spec fn retract_messages(ledger: LedgerView, sender: Seq<char>, refund: u128) -> Seq<
    InstructionView,
> {
    seq![InstructionView::Send { to_address: sender, amount: refund, denom: ledger.config.denom }]
}

/// The attributes of a retraction.
pub open spec fn retract_attributes(auction_id: u64, amount: u128, sender: Seq<char>) -> Seq<
    AttributeView,
> {
    seq![
        attr("auction_id"@, decimal_text(auction_id as nat)),
        attr("refund_amount"@, decimal_text(amount as nat)),
        attr("recipient"@, sender),
    ]
}

/// What taking back the escrow of `sender` on the auction `auction_id` does,
/// at the time `now`.
///
/// It is rejected where the auction or the sender's escrow record is
/// unknown, where the auction has not ended, where the sender is bound to
/// buy, and where the escrow is empty or was paid out before. Otherwise the
/// escrow is emptied and marked as paid out, and the whole of it is sent
/// back.
pub open spec fn retract(
    ledger: LedgerView,
    tax: TaxInfo,
    now: u64,
    sender: Seq<char>,
    auction_id: u64,
) -> Result<Outcome, ContractError> {
    if !ledger.items.contains_key(auction_id) {
        Err(ContractError::NotFound {  })
    } else {
        let item = ledger.items[auction_id];
        match bid_of(ledger, auction_id, sender) {
            None => Err(ContractError::NotFound {  }),
            Some(bid) => if now < item.end_time {
                Err(ContractError::Unauthorized {  })
            } else if is_bound_buyer(item, sender) {
                Err(ContractError::Unauthorized {  })
            } else if bid.total_bid == 0 || bid.resolved {
                Err(ContractError::Unauthorized {  })
            } else {
                match after_tax(bid.total_bid, tax) {
                    Some(refund) => Ok(
                        Outcome {
                            ledger: LedgerView {
                                bids: ledger.bids.insert(
                                    (auction_id, sender),
                                    BidInfo { total_bid: 0, resolved: true, ..bid },
                                ),
                                ..ledger
                            },
                            response: ResponseView {
                                messages: retract_messages(ledger, sender, refund),
                                attributes: retract_attributes(auction_id, bid.total_bid, sender),
                            },
                        },
                    ),
                    None => Err(ContractError::Overflow {  }),
                }
            },
        }
    }
}

/// Takes back the caller's escrow on the auction `auction_id`.
pub fn execute_retract_bids(
    ledger: &mut Ledger,
    querier: &Querier,
    env: &Env,
    info: &MessageInfo,
    auction_id: u64,
) -> (res: Result<Response, ContractError>)
    ensures
        holds(
            old(ledger)@,
            final(ledger)@,
            res,
            retract(old(ledger)@, querier.tax, env.time, info.sender@, auction_id),
        ),
{
    let item = match ledger.load_item(auction_id) {
        None => {
            return Err(ContractError::NotFound {  });
        },
        Some(item) => item,
    };
    let bid = match ledger.load_bid(auction_id, &info.sender) {
        None => {
            return Err(ContractError::NotFound {  });
        },
        Some(bid) => bid,
    };
    if env.time < item.end_time {
        return Err(ContractError::Unauthorized {  });
    }
    let reserve: u128 = match item.reserve_price {
        Some(a) => a,
        None => 0,
    };
    let highest: u128 = match item.highest_bid {
        Some(a) => a,
        None => 0,
    };
    let is_highest: bool = match &item.highest_bidder {
        Some(bidder) => *bidder == info.sender,
        None => false,
    };
    if is_highest && highest >= reserve {
        return Err(ContractError::Unauthorized {  });
    }
    if bid.total_bid == 0 || bid.resolved {
        return Err(ContractError::Unauthorized {  });
    }
    let refund: u128 = match deduct_tax(bid.total_bid, &querier.tax) {
        Some(refund) => refund,
        None => {
            return Err(ContractError::Overflow {  });
        },
    };
    let response = Response::new().add_message(
        Instruction::Send {
            to_address: info.sender.clone(),
            amount: refund,
            denom: ledger.config.denom.clone(),
        },
    );
    let response = response.add_attribute("auction_id", u64_to_string(auction_id)).add_attribute(
        "refund_amount",
        u128_to_string(bid.total_bid),
    ).add_attribute("recipient", info.sender.clone());
    assert(response@.attributes =~= retract_attributes(auction_id, bid.total_bid, info.sender@));
    ledger.save_bid(
        auction_id,
        &info.sender,
        BidInfo {
            bid_counter: bid.bid_counter,
            total_bid: 0,
            sity_used: bid.sity_used,
            resolved: true,
        },
    );
    Ok(response)
}

} // verus!
