//! Admission to private sales.
//!
//! On a private sale only registered principals may bid or buy. A principal
//! registers once per auction, with a deposit of the reward token that is
//! burnt. A registration counts on the auction like a bid.
//!
//! The deposit grows with the bid that stands when the principal registers,
//! so who registers later pays more. Whether late registrants are meant to
//! pay more is a question for the owner of the marketplace; the rule here is
//! the formula as it stands. Once registered, a principal is admitted for
//! the rest of the auction: the deposit is not looked at again.

use crate::error::ContractError;
use crate::host::{attr, AttributeView, Env, Instruction, InstructionView, Response, ResponseView};
use crate::money::{add_amounts, checked_mul_floor, checked_sum, mul_decimal};
use crate::rules::{bid_of, holds, next_count, Outcome};
use crate::state::{BidInfo, Config, ConfigView, ItemInfo, ItemInfoView, Ledger, LedgerView};
use crate::text::{decimal_text, u128_to_string, u64_to_string};
use vstd::prelude::*;

verus! {

/// The deposit that registering for the auction takes: the least deposit,
/// and on top of it the registration fee on the highest bid, where there is
/// one. `None` where that is no amount.
pub open spec fn required_deposit_of(config: ConfigView, item: ItemInfoView) -> Option<u128> {
    match item.highest_bid {
        None => Some(config.sity_min_opening),
        Some(bid) => match checked_mul_floor(bid, config.sity_fee_registration) {
            None => None,
            Some(fee) => checked_sum(config.sity_min_opening, fee),
        },
    }
}

/// The deposit that registering for the auction takes.
pub fn required_deposit(config: &Config, item: &ItemInfo) -> (r: Option<u128>)
    ensures
        r == required_deposit_of(config@, item@),
{
    match item.highest_bid {
        None => Some(config.sity_min_opening),
        Some(bid) => match mul_decimal(bid, config.sity_fee_registration) {
            None => None,
            Some(fee) => add_amounts(config.sity_min_opening, fee),
        },
    }
}

/// The error that tells an unregistered principal what registering takes.
pub open spec fn registration_required(config: ConfigView, item: ItemInfoView) -> ContractError {
    match required_deposit_of(config, item) {
        Some(deposit) => ContractError::PrivateSaleRestriction(deposit),
        None => ContractError::Overflow {  },
    }
}

/// The error that tells an unregistered principal what registering takes.
pub fn require_registration(config: &Config, item: &ItemInfo) -> (r: ContractError)
    ensures
        r == registration_required(config@, item@),
{
    match required_deposit(config, item) {
        Some(deposit) => ContractError::PrivateSaleRestriction(deposit),
        None => ContractError::Overflow {  },
    }
}

/// The attributes of a registration.
pub open spec fn register_attributes(auction_id: u64, sender: Seq<char>, sent: u128) -> Seq<
    AttributeView,
> {
    seq![
        attr("register_auction"@, decimal_text(auction_id as nat)),
        attr("sender"@, sender),
        attr("amount_required"@, decimal_text(sent as nat)),
    ]
}

/// What registering `sender` for the private sale `auction_id` with the
/// deposit `sent` does, at the time `now`.
///
/// It is rejected where the auction is unknown, is over or has not begun,
/// where the sender is its creator, where it is no private sale, where the
/// deposit is not exactly the required one, where the sender has an escrow
/// record on it already, and where the auction's count of bids is at its
/// limit. Otherwise the sender gets an empty escrow record that holds the
/// deposit, the registration counts as one more bid on the auction, and the
/// deposit is burnt.
pub open spec fn register(
    ledger: LedgerView,
    now: u64,
    sender: Seq<char>,
    sent: u128,
    auction_id: u64,
) -> Result<Outcome, ContractError> {
    if !ledger.items.contains_key(auction_id) {
        Err(ContractError::NotFound {  })
    } else {
        let item = ledger.items[auction_id];
        if item.end_time < now {
            Err(ContractError::EndTimeExpired {  })
        } else if item.start_time > now {
            Err(ContractError::AuctionNotStarted {  })
        } else if item.creator == sender {
            Err(ContractError::Unauthorized {  })
        } else if !item.private_sale {
            Err(ContractError::Unauthorized {  })
        } else if required_deposit_of(ledger.config, item) != Some(sent) {
            Err(registration_required(ledger.config, item))
        } else if bid_of(ledger, auction_id, sender) is Some {
            Err(ContractError::Unauthorized {  })
        } else if next_count(item.total_bids) is None {
            Err(ContractError::Overflow {  })
        } else {
            Ok(
                Outcome {
                    ledger: LedgerView {
                        items: ledger.items.insert(
                            auction_id,
                            ItemInfoView {
                                total_bids: next_count(item.total_bids).unwrap(),
                                ..item
                            },
                        ),
                        bids: ledger.bids.insert(
                            (auction_id, sender),
                            BidInfo {
                                bid_counter: 0,
                                total_bid: 0,
                                sity_used: Some(sent),
                                resolved: false,
                            },
                        ),
                        ..ledger
                    },
                    response: ResponseView {
                        messages: seq![
                            InstructionView::Burn {
                                contract: ledger.state.cw20_address,
                                amount: sent,
                            },
                        ],
                        attributes: register_attributes(auction_id, sender, sent),
                    },
                },
            )
        }
    }
}

/// Registers `sender` for the private sale `auction_id` with the deposit
/// `sent` of the reward token.
pub fn execute_register_private_sale(
    ledger: &mut Ledger,
    env: &Env,
    sender: String,
    sent: u128,
    auction_id: u64,
) -> (res: Result<Response, ContractError>)
    ensures
        holds(
            old(ledger)@,
            final(ledger)@,
            res,
            register(old(ledger)@, env.time, sender@, sent, auction_id),
        ),
{
    let mut item = match ledger.load_item(auction_id) {
        None => {
            return Err(ContractError::NotFound {  });
        },
        Some(item) => item,
    };
    if item.end_time < env.time {
        return Err(ContractError::EndTimeExpired {  });
    }
    if item.start_time > env.time {
        return Err(ContractError::AuctionNotStarted {  });
    }
    if item.creator == sender {
        return Err(ContractError::Unauthorized {  });
    }
    if !item.private_sale {
        return Err(ContractError::Unauthorized {  });
    }
    let exact: bool = match required_deposit(&ledger.config, &item) {
        Some(deposit) => deposit == sent,
        None => false,
    };
    if !exact {
        return Err(require_registration(&ledger.config, &item));
    }
    if ledger.load_bid(auction_id, &sender).is_some() {
        return Err(ContractError::Unauthorized {  });
    }
    if item.total_bids == u64::MAX {
        return Err(ContractError::Overflow {  });
    }
    let response = Response::new().add_message(
        Instruction::Burn { contract: ledger.state.cw20_address.clone(), amount: sent },
    ).add_attribute("register_auction", u64_to_string(auction_id)).add_attribute(
        "sender",
        sender.clone(),
    ).add_attribute("amount_required", u128_to_string(sent));
    assert(response@.attributes =~= register_attributes(auction_id, sender@, sent));
    item.total_bids = item.total_bids + 1;
    ledger.save_item(auction_id, item);
    ledger.save_bid(
        auction_id,
        &sender,
        BidInfo { bid_counter: 0, total_bid: 0, sity_used: Some(sent), resolved: false },
    );
    Ok(response)
}

} // verus!
