//! The life of an auction: how it is created, and how its creator may end
//! it early.
//!
//! An auction is scheduled until its start, open from its start to its end,
//! and ended from then on; an ended auction is settled once. Cancelling
//! moves the end of an open auction to the present and removes the highest
//! bidder, so that nobody is bound to buy and every bidder can take the
//! escrow back.

use crate::error::{ContractError, PriceLimit};
use crate::host::{
    attr, AttributeView, Coin, Env, Instruction, InstructionView, MessageInfo, Querier,
    Response, ResponseView,
};
use crate::money::{checked_mul_floor, mul_decimal, Decimal, DECIMAL_FRACTIONAL};
use crate::msg::{charity_response_of, CharityResponse};
use crate::rules::{
    cancellation_split, funds_amount, holds, sent_funds, Outcome, MAX_TIME_AUCTION,
    MIN_TIME_AUCTION,
};
use crate::state::{
    CharityInfo, CharityView, ItemInfo, ItemInfoView, Ledger, LedgerView, StateView,
};
use crate::taxation::{after_tax, deduct_tax, TaxInfo};
use crate::text::{bool_text, bool_to_string, decimal_text, u128_to_string, u64_to_string};
use vstd::prelude::*;
use vstd::string::*;

verus! {

/// What is asked of a new auction.
pub struct Listing {
    pub start_price: Option<u128>,
    pub start_time: Option<u64>,
    pub end_time: u64,
    pub charity: Option<CharityView>,
    pub instant_buy: Option<u128>,
    pub reserve_price: Option<u128>,
    pub private_sale: bool,
}

/// When a new auction starts: when asked, else at once.
pub open spec fn start_of(listing: Listing, now: u64) -> u64 {
    match listing.start_time {
        Some(t) => t,
        None => now,
    }
}

/// Why a listing is refused at the time `now`, if it is.
///
/// The end is to lie at least the shortest duration and at most the longest
/// one after now, and as much after the start. A start price is to be below the instant-buy price and
/// not above the reserve price. A charity's share is to be more than nothing
/// and at most everything. An instant-buy price is to be more than nothing
/// and not below the reserve price.
pub open spec fn listing_refusal(listing: Listing, now: u64) -> Option<ContractError> {
    let start = start_of(listing, now);
    if now + MIN_TIME_AUCTION > listing.end_time {
        Some(ContractError::EndTimeExpired {  })
    } else if now + MAX_TIME_AUCTION < listing.end_time {
        Some(ContractError::AuctionLimitReached {  })
    } else if start + MIN_TIME_AUCTION > listing.end_time {
        Some(ContractError::EndTimeExpired {  })
    } else if start + MAX_TIME_AUCTION < listing.end_time {
        Some(ContractError::AuctionLimitReached {  })
    } else if listing.start_price is Some && listing.instant_buy is Some
        && listing.start_price.unwrap() >= listing.instant_buy.unwrap() {
        Some(ContractError::StartPriceHigherThan(PriceLimit::InstantBuy))
    } else if listing.start_price is Some && listing.reserve_price is Some
        && listing.start_price.unwrap() > listing.reserve_price.unwrap() {
        Some(ContractError::StartPriceHigherThan(PriceLimit::ReservePrice))
    } else if listing.charity is Some && (listing.charity.unwrap().fee_percentage.atomics == 0
        || listing.charity.unwrap().fee_percentage.atomics > DECIMAL_FRACTIONAL) {
        Some(ContractError::PercentageFormat {  })
    } else if listing.instant_buy is Some && listing.instant_buy.unwrap() == 0 {
        Some(ContractError::ZeroNotValid {  })
    } else if listing.instant_buy is Some && listing.reserve_price is Some
        && listing.instant_buy.unwrap() < listing.reserve_price.unwrap() {
        Some(ContractError::InstantBuyPriceLowerThan(PriceLimit::ReservePrice))
    } else {
        None
    }
}

/// The auction that a listing of the asset `token_id` of `nft_contract` by
/// `creator` begins as.
pub open spec fn new_auction(
    listing: Listing,
    now: u64,
    creator: Seq<char>,
    nft_contract: Seq<char>,
    token_id: Seq<char>,
) -> ItemInfoView {
    ItemInfoView {
        creator,
        start_price: listing.start_price,
        start_time: start_of(listing, now),
        end_time: listing.end_time,
        highest_bid: None,
        highest_bidder: None,
        nft_contract,
        nft_id: token_id,
        total_bids: 0,
        charity: listing.charity,
        instant_buy: listing.instant_buy,
        reserve_price: listing.reserve_price,
        private_sale: listing.private_sale,
        resolved: false,
    }
}

/// The attributes of a new auction.
pub open spec fn create_attributes(
    token_id: Seq<char>,
    nft_contract: Seq<char>,
    creator: Seq<char>,
    marketplace: Seq<char>,
    auction_id: u64,
    private_sale: bool,
) -> Seq<AttributeView> {
    seq![
        attr("create_auction_type"@, "NFT"@),
        attr("token_id"@, token_id),
        attr("contract_minter"@, nft_contract),
        attr("creator"@, creator),
        attr("new_temporal_owner"@, marketplace),
        attr("auction_id"@, decimal_text(auction_id as nat)),
        attr("private_sale"@, bool_text(private_sale)),
    ]
}

/// What listing the asset `token_id` of `nft_contract`, which `creator` has
/// handed over, does at the time `now`.
///
/// It is rejected where the listing is refused and where the counter of
/// auctions is at its limit. Otherwise the auction is entered under the
/// counter's number, and the counter goes up by one.
pub open spec fn create_auction(
    ledger: LedgerView,
    now: u64,
    marketplace: Seq<char>,
    nft_contract: Seq<char>,
    creator: Seq<char>,
    token_id: Seq<char>,
    listing: Listing,
) -> Result<Outcome, ContractError> {
    match listing_refusal(listing, now) {
        Some(e) => Err(e),
        None => if ledger.state.counter_items == u64::MAX {
            Err(ContractError::Overflow {  })
        } else {
            Ok(
                Outcome {
                    ledger: LedgerView {
                        items: ledger.items.insert(
                            ledger.state.counter_items,
                            new_auction(listing, now, creator, nft_contract, token_id),
                        ),
                        state: StateView {
                            counter_items: (ledger.state.counter_items + 1) as u64,
                            ..ledger.state
                        },
                        ..ledger
                    },
                    response: ResponseView {
                        messages: Seq::empty(),
                        attributes: create_attributes(
                            token_id,
                            nft_contract,
                            creator,
                            marketplace,
                            ledger.state.counter_items,
                            listing.private_sale,
                        ),
                    },
                },
            )
        },
    }
}

/// Lists the asset `token_id`, which `sender` has handed to the marketplace
/// through the asset's contract, the caller.
#[allow(clippy::too_many_arguments)]
pub fn execute_create_auction(
    ledger: &mut Ledger,
    env: &Env,
    info: &MessageInfo,
    sender: String,
    token_id: String,
    start_price: Option<u128>,
    start_time: Option<u64>,
    end_time: u64,
    charity: Option<CharityResponse>,
    instant_buy: Option<u128>,
    reserve_price: Option<u128>,
    private_sale: bool,
) -> (res: Result<Response, ContractError>)
    ensures
        holds(
            old(ledger)@,
            final(ledger)@,
            res,
            create_auction(
                old(ledger)@,
                env.time,
                env.contract_address@,
                info.sender@,
                sender@,
                token_id@,
                Listing {
                    start_price,
                    start_time,
                    end_time,
                    charity: charity_response_of(charity),
                    instant_buy,
                    reserve_price,
                    private_sale,
                },
            ),
        ),
{
    let now: u128 = env.time as u128;
    let end: u128 = end_time as u128;
    let shortest: u128 = MIN_TIME_AUCTION as u128;
    let longest: u128 = MAX_TIME_AUCTION as u128;
    if now + shortest > end {
        return Err(ContractError::EndTimeExpired {  });
    }
    if now + longest < end {
        return Err(ContractError::AuctionLimitReached {  });
    }
    let start: u64 = match start_time {
        None => env.time,
        Some(time) => time,
    };
    if start as u128 + shortest > end {
        return Err(ContractError::EndTimeExpired {  });
    }
    if start as u128 + longest < end {
        return Err(ContractError::AuctionLimitReached {  });
    }
    match start_price {
        Some(start_price_amount) => {
            match instant_buy {
                Some(instant_buy_amount) => {
                    if start_price_amount >= instant_buy_amount {
                        return Err(ContractError::StartPriceHigherThan(PriceLimit::InstantBuy));
                    }
                },
                None => {},
            }
            match reserve_price {
                Some(reserve_price_amount) => {
                    if start_price_amount > reserve_price_amount {
                        return Err(ContractError::StartPriceHigherThan(PriceLimit::ReservePrice));
                    }
                },
                None => {},
            }
        },
        None => {},
    }
    let valid_charity: Option<CharityInfo> = match charity {
        None => None,
        Some(c) => {
            if c.fee_percentage.is_zero() || c.fee_percentage.gt(&Decimal::one()) {
                return Err(ContractError::PercentageFormat {  });
            }
            Some(CharityInfo { address: c.address, fee_percentage: c.fee_percentage })
        },
    };
    match instant_buy {
        Some(instant_buy_price) => {
            if instant_buy_price == 0 {
                return Err(ContractError::ZeroNotValid {  });
            }
            match reserve_price {
                Some(reserve_price_amount) => {
                    if instant_buy_price < reserve_price_amount {
                        return Err(
                            ContractError::InstantBuyPriceLowerThan(PriceLimit::ReservePrice),
                        );
                    }
                },
                None => {},
            }
        },
        None => {},
    }
    let auction_id: u64 = ledger.state.counter_items;
    if auction_id == u64::MAX {
        return Err(ContractError::Overflow {  });
    }
    let response = Response::new().add_attribute(
        "create_auction_type",
        String::from_str("NFT"),
    ).add_attribute("token_id", token_id.clone()).add_attribute(
        "contract_minter",
        info.sender.clone(),
    ).add_attribute("creator", sender.clone()).add_attribute(
        "new_temporal_owner",
        env.contract_address.clone(),
    ).add_attribute("auction_id", u64_to_string(auction_id)).add_attribute(
        "private_sale",
        bool_to_string(private_sale),
    );
    assert(response@.attributes =~= create_attributes(
        token_id@,
        info.sender@,
        sender@,
        env.contract_address@,
        auction_id,
        private_sale,
    ));
    ledger.save_item(
        auction_id,
        ItemInfo {
            creator: sender,
            start_price,
            start_time: start,
            end_time,
            highest_bid: None,
            highest_bidder: None,
            nft_contract: info.sender.clone(),
            nft_id: token_id,
            total_bids: 0,
            charity: valid_charity,
            instant_buy,
            reserve_price,
            private_sale,
            resolved: false,
        },
    );
    ledger.state.counter_items = auction_id + 1;
    Ok(response)
}

/// The instructions of a cancellation that costs the fee `fee`: a half of
/// it to the highest bidder and a half to the platform, or all of it to the
/// platform where nobody is the highest bidder; each reduced by the tax.
pub open spec fn cancel_messages(
    ledger: LedgerView,
    item: ItemInfoView,
    fee: u128,
    tax: TaxInfo,
) -> Option<Seq<InstructionView>> {
    match item.highest_bidder {
        Some(bidder) => match checked_mul_floor(fee, cancellation_split()) {
            None => None,
            Some(half) => match after_tax(half, tax) {
                None => None,
                Some(paid) => Some(
                    seq![
                        InstructionView::Send {
                            to_address: bidder,
                            amount: paid,
                            denom: ledger.config.denom,
                        },
                        InstructionView::Send {
                            to_address: ledger.config.lota_contract,
                            amount: paid,
                            denom: ledger.config.denom,
                        },
                    ],
                ),
            },
        },
        None => match after_tax(fee, tax) {
            None => None,
            Some(paid) => Some(
                seq![
                    InstructionView::Send {
                        to_address: ledger.config.lota_contract,
                        amount: paid,
                        denom: ledger.config.denom,
                    },
                ],
            ),
        },
    }
}

/// The attributes of a cancellation.
pub open spec fn cancel_attributes(auction_id: u64, fee: u128) -> Seq<AttributeView> {
    seq![
        attr("action"@, "cancel_auction"@),
        attr("auction_id"@, decimal_text(auction_id as nat)),
        attr("cancellation_fee"@, decimal_text(fee as nat)),
    ]
}

/// The ledger once the auction `id` is cancelled at the time `now`: the
/// auction ends now and has no highest bidder.
pub open spec fn cancelled(ledger: LedgerView, id: u64, now: u64) -> LedgerView {
    LedgerView {
        items: ledger.items.insert(
            id,
            ItemInfoView { end_time: now, highest_bidder: None, ..ledger.items[id] },
        ),
        ..ledger
    }
}

/// What cancelling the auction `auction_id` does, at the time `now`.
///
/// It is rejected where the auction is unknown, is over or has not begun,
/// and where the sender is not its creator. Where the auction has a bid, the
/// funds are to be one coin of the settlement currency, and exactly the
/// cancellation fee on the highest bid, which is then paid out. The auction
/// ends now, without a highest bidder; its bid stays as it is.
pub open spec fn cancel(
    ledger: LedgerView,
    tax: TaxInfo,
    now: u64,
    sender: Seq<char>,
    funds: Seq<Coin>,
    auction_id: u64,
) -> Result<Outcome, ContractError> {
    if !ledger.items.contains_key(auction_id) {
        Err(ContractError::NotFound {  })
    } else {
        let item = ledger.items[auction_id];
        if now >= item.end_time {
            Err(ContractError::EndTimeExpired {  })
        } else if now < item.start_time {
            Err(ContractError::AuctionNotStarted {  })
        } else if sender != item.creator {
            Err(ContractError::Unauthorized {  })
        } else {
            match item.highest_bid {
                None => Ok(
                    Outcome {
                        ledger: cancelled(ledger, auction_id, now),
                        response: ResponseView {
                            messages: Seq::empty(),
                            attributes: cancel_attributes(auction_id, 0),
                        },
                    },
                ),
                Some(bid) => match funds_amount(funds, ledger.config.denom) {
                    Err(e) => Err(e),
                    Ok(sent) => match checked_mul_floor(bid, ledger.cancellation.cancellation_fee) {
                        None => Err(ContractError::Overflow {  }),
                        Some(fee) => if sent != fee {
                            Err(ContractError::CancelAuctionFee(fee))
                        } else {
                            match cancel_messages(ledger, item, fee, tax) {
                                None => Err(ContractError::Overflow {  }),
                                Some(messages) => Ok(
                                    Outcome {
                                        ledger: cancelled(ledger, auction_id, now),
                                        response: ResponseView {
                                            messages,
                                            attributes: cancel_attributes(auction_id, fee),
                                        },
                                    },
                                ),
                            }
                        },
                    },
                },
            }
        }
    }
}

/// Ends the auction `auction_id` early, for its creator, the caller.
pub fn execute_cancel_auction(
    ledger: &mut Ledger,
    querier: &Querier,
    env: &Env,
    info: &MessageInfo,
    auction_id: u64,
) -> (res: Result<Response, ContractError>)
    ensures
        holds(
            old(ledger)@,
            final(ledger)@,
            res,
            cancel(old(ledger)@, querier.tax, env.time, info.sender@, info.funds@, auction_id),
        ),
{
    let mut item = match ledger.load_item(auction_id) {
        None => {
            return Err(ContractError::NotFound {  });
        },
        Some(item) => item,
    };
    if env.time >= item.end_time {
        return Err(ContractError::EndTimeExpired {  });
    }
    if env.time < item.start_time {
        return Err(ContractError::AuctionNotStarted {  });
    }
    if !(info.sender == item.creator) {
        return Err(ContractError::Unauthorized {  });
    }
    let mut response = Response::new();
    let fee: u128 = match item.highest_bid {
        None => 0,
        Some(bid) => {
            let sent: u128 = match sent_funds(&info.funds, &ledger.config.denom) {
                Err(e) => {
                    return Err(e);
                },
                Ok(sent) => sent,
            };
            let fee: u128 = match mul_decimal(bid, ledger.cancellation.cancellation_fee) {
                None => {
                    return Err(ContractError::Overflow {  });
                },
                Some(fee) => fee,
            };
            if sent != fee {
                return Err(ContractError::CancelAuctionFee(fee));
            }
            match &item.highest_bidder {
                Some(bidder) => {
                    let half: u128 = match mul_decimal(fee, Decimal::percent(50)) {
                        None => {
                            return Err(ContractError::Overflow {  });
                        },
                        Some(half) => half,
                    };
                    let paid: u128 = match deduct_tax(half, &querier.tax) {
                        None => {
                            return Err(ContractError::Overflow {  });
                        },
                        Some(paid) => paid,
                    };
                    response = response.add_message(
                        Instruction::Send {
                            to_address: bidder.clone(),
                            amount: paid,
                            denom: ledger.config.denom.clone(),
                        },
                    ).add_message(
                        Instruction::Send {
                            to_address: ledger.config.lota_contract.clone(),
                            amount: paid,
                            denom: ledger.config.denom.clone(),
                        },
                    );
                },
                None => {
                    let paid: u128 = match deduct_tax(fee, &querier.tax) {
                        None => {
                            return Err(ContractError::Overflow {  });
                        },
                        Some(paid) => paid,
                    };
                    response = response.add_message(
                        Instruction::Send {
                            to_address: ledger.config.lota_contract.clone(),
                            amount: paid,
                            denom: ledger.config.denom.clone(),
                        },
                    );
                },
            }
            assert(response@.messages =~= cancel_messages(
                ledger@,
                item@,
                fee,
                querier.tax,
            ).unwrap());
            fee
        },
    };
    let response = response.add_attribute(
        "action",
        String::from_str("cancel_auction"),
    ).add_attribute("auction_id", u64_to_string(auction_id)).add_attribute(
        "cancellation_fee",
        u128_to_string(fee),
    );
    assert(response@.attributes =~= cancel_attributes(auction_id, fee));
    item.end_time = env.time;
    item.highest_bidder = None;
    ledger.save_item(auction_id, item);
    Ok(response)
}

} // verus!
