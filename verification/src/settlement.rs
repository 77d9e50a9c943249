//! Settlement: who gets the asset of an auction that has ended, and how the
//! winning bid is split.
//!
//! Royalty and platform fee are both taken of the whole bid, so that it
//! makes no difference which of the two is taken first. The charity's share
//! is taken of what is left after them, and the creator gets the rest, so
//! that every unit of the bid is accounted for and what rounding leaves over
//! goes to the creator.
//!
//! What is sent is each part less the tax that the host takes of a transfer.

use crate::error::ContractError;
use crate::host::{
    attr, minter_of, AttributeView, Env, Instruction, InstructionView, MessageInfo, Querier,
    Response, ResponseView,
};
use crate::money::{checked_mul_floor, mul_decimal, Decimal};
use crate::rules::{default_royalty_fee, holds, Outcome};
use crate::state::{text_of, ItemInfo, ItemInfoView, Ledger, LedgerView};
use crate::taxation::{after_tax, deduct_tax, TaxInfo};
use crate::text::{decimal_text, u64_to_string};
use vstd::prelude::*;
use vstd::string::*;

verus! {

/// The parts of a winning bid.
#[derive(Clone, Copy, Debug, PartialEq, Eq, Structural)]
pub struct Split {
    /// To the royalty recipient.
    pub royalty: u128,
    /// To the platform.
    pub fee: u128,
    /// To the charity; nothing where there is none.
    pub charity: u128,
    /// To the creator.
    pub net: u128,
}

/// The parts of the bid `bid` under the given rates, or `None` where a part
/// is no amount or royalty and fee together exceed the bid.
pub open spec fn split_of(
    bid: u128,
    royalty_rate: Decimal,
    fee_rate: Decimal,
    charity_rate: Option<Decimal>,
) -> Option<Split> {
    match (checked_mul_floor(bid, royalty_rate), checked_mul_floor(bid, fee_rate)) {
        (Some(royalty), Some(fee)) => {
            if fee + royalty > bid {
                None
            } else {
                let rest = (bid - fee - royalty) as u128;
                match charity_rate {
                    None => Some(Split { royalty, fee, charity: 0, net: rest }),
                    Some(rate) => match checked_mul_floor(rest, rate) {
                        None => None,
                        Some(charity) => if charity > rest {
                            None
                        } else {
                            Some(Split { royalty, fee, charity, net: (rest - charity) as u128 })
                        },
                    },
                }
            }
        },
        _ => None,
    }
}

/// The parts of the bid `bid` under the given rates.
pub fn split_bid(
    bid: u128,
    royalty_rate: Decimal,
    fee_rate: Decimal,
    charity_rate: Option<Decimal>,
) -> (r: Option<Split>)
    ensures
        r == split_of(bid, royalty_rate, fee_rate, charity_rate),
{
    let royalty: u128 = match mul_decimal(bid, royalty_rate) {
        None => {
            return None;
        },
        Some(x) => x,
    };
    let fee: u128 = match mul_decimal(bid, fee_rate) {
        None => {
            return None;
        },
        Some(x) => x,
    };
    if fee > bid || royalty > bid - fee {
        return None;
    }
    let rest: u128 = bid - fee - royalty;
    match charity_rate {
        None => Some(Split { royalty, fee, charity: 0, net: rest }),
        Some(rate) => match mul_decimal(rest, rate) {
            None => None,
            Some(charity) => if charity > rest {
                None
            } else {
                Some(Split { royalty, fee, charity, net: rest - charity })
            },
        },
    }
}

/// Who has won the auction: the highest bidder, where there is a bid and it
/// is not below the reserve price.
pub open spec fn winner_of(item: ItemInfoView) -> Option<Seq<char>> {
    match (item.highest_bidder, item.highest_bid) {
        (Some(bidder), Some(bid)) => if item.reserve_price is Some && item.reserve_price.unwrap()
            > bid {
            None
        } else {
            Some(bidder)
        },
        _ => None,
    }
}

/// Who receives the royalty on assets of `minter`, and at which rate: as the
/// minter's record says, the minter itself where the record names nobody, and
/// at the default rate where the minter has no record.
pub open spec fn royalty_terms(ledger: LedgerView, minter: Option<Seq<char>>) -> Option<
    (Seq<char>, Decimal),
> {
    match minter {
        None => None,
        Some(m) => if ledger.royalty.contains_key(m) {
            let record = ledger.royalty[m];
            match record.recipient {
                Some(r) => Some((r, record.fee)),
                None => Some((m, record.fee)),
            }
        } else {
            Some((m, default_royalty_fee()))
        },
    }
}

/// The rate of the royalty under the given terms; nothing where there are
/// none.
pub open spec fn royalty_rate_of(terms: Option<(Seq<char>, Decimal)>) -> Decimal {
    match terms {
        Some(t) => t.1,
        None => Decimal { atomics: 0 },
    }
}

/// The rate of the platform's fee on the auction.
pub open spec fn fee_rate_of(ledger: LedgerView, item: ItemInfoView) -> Decimal {
    if item.private_sale {
        ledger.config.lota_fee_low
    } else {
        ledger.config.lota_fee
    }
}

/// The rate of the charity of the auction, if it has one.
pub open spec fn charity_rate_of(item: ItemInfoView) -> Option<Decimal> {
    match item.charity {
        Some(c) => Some(c.fee_percentage),
        None => None,
    }
}

/// `messages`, and after them a transfer of `amount` in the currency `denom`
/// to `to`, reduced by the tax, where the amount is not zero.
pub open spec fn with_payment(
    messages: Seq<InstructionView>,
    to: Seq<char>,
    amount: u128,
    denom: Seq<char>,
    tax: TaxInfo,
) -> Seq<InstructionView> {
    if amount == 0 {
        messages
    } else {
        messages.push(
            InstructionView::Send { to_address: to, amount: after_tax(amount, tax).unwrap(), denom },
        )
    }
}

/// The instructions that pay out the bid `bid` of the winner `winner`, after
/// the transfer of the asset: the reward to creator and winner, then the
/// creator's part, the royalty, the platform's fee and the charity's part,
/// each left out where it is zero.
pub open spec fn payout_messages(
    ledger: LedgerView,
    item: ItemInfoView,
    winner: Seq<char>,
    bid: u128,
    reward: u128,
    split: Split,
    terms: Option<(Seq<char>, Decimal)>,
    tax: TaxInfo,
) -> Seq<InstructionView> {
    let m0 = seq![
        InstructionView::TransferNft {
            contract: item.nft_contract,
            recipient: winner,
            token_id: item.nft_id,
        },
    ];
    let m1 = if bid == 0 {
        m0
    } else {
        m0.push(
            InstructionView::Mint {
                contract: ledger.state.cw20_address,
                recipient: item.creator,
                amount: reward,
            },
        ).push(
            InstructionView::Mint {
                contract: ledger.state.cw20_address,
                recipient: winner,
                amount: reward,
            },
        )
    };
    let m2 = with_payment(m1, item.creator, split.net, ledger.config.denom, tax);
    let m3 = match terms {
        Some(t) => with_payment(m2, t.0, split.royalty, ledger.config.denom, tax),
        None => m2,
    };
    let m4 = with_payment(m3, ledger.config.lota_contract, split.fee, ledger.config.denom, tax);
    match item.charity {
        Some(c) => with_payment(m4, c.address, split.charity, ledger.config.denom, tax),
        None => m4,
    }
}

/// Who receives the royalty on the asset in question, and at which rate.
pub open spec fn royalty_terms_of(ledger: LedgerView, querier: Querier) -> Option<
    (Seq<char>, Decimal),
> {
    royalty_terms(ledger, minter_of(text_of(querier.minter), querier.minting_info))
}

/// The parts of the highest bid of the auction.
pub open spec fn split_of_auction(ledger: LedgerView, querier: Querier, item: ItemInfoView) -> Option<
    Split,
> {
    split_of(
        item.highest_bid.unwrap(),
        royalty_rate_of(royalty_terms_of(ledger, querier)),
        fee_rate_of(ledger, item),
        charity_rate_of(item),
    )
}

/// The instructions that hand the asset to the winner `winner` and pay out
/// the highest bid, or `None` where a part of the bid, the reward on it or
/// the tax is no amount.
pub open spec fn payout_of(
    ledger: LedgerView,
    querier: Querier,
    item: ItemInfoView,
    winner: Seq<char>,
) -> Option<Seq<InstructionView>> {
    let bid = item.highest_bid.unwrap();
    match (
        split_of_auction(ledger, querier, item),
        checked_mul_floor(bid, ledger.config.sity_full_rewards),
        after_tax(0, querier.tax),
    ) {
        (Some(split), Some(reward), Some(_)) => Some(
            payout_messages(
                ledger,
                item,
                winner,
                bid,
                reward,
                split,
                royalty_terms_of(ledger, querier),
                querier.tax,
            ),
        ),
        _ => None,
    }
}

/// The attributes of a settlement.
pub open spec fn withdraw_attributes(
    auction_id: u64,
    sender: Seq<char>,
    creator: Seq<char>,
    recipient: Seq<char>,
) -> Seq<AttributeView> {
    seq![
        attr("auction_type"@, "NFT"@),
        attr("auction_id"@, decimal_text(auction_id as nat)),
        attr("sender"@, sender),
        attr("creator"@, creator),
        attr("recipient"@, recipient),
    ]
}

/// The ledger once the auction `id` is settled.
pub open spec fn settled(ledger: LedgerView, id: u64) -> LedgerView {
    LedgerView {
        items: ledger.items.insert(id, ItemInfoView { resolved: true, ..ledger.items[id] }),
        ..ledger
    }
}

/// What settling the auction `auction_id` at the time `now` does.
///
/// It is rejected where the auction is unknown, is settled already or has
/// not ended, and where an amount does not fit. Otherwise the auction is
/// marked as settled. Where nobody has won, or the creator has, the asset
/// goes back to the creator and nothing is paid. Else the asset goes to the
/// winner and the bid is paid out.
pub open spec fn withdraw(
    ledger: LedgerView,
    querier: Querier,
    now: u64,
    sender: Seq<char>,
    auction_id: u64,
) -> Result<Outcome, ContractError> {
    if !ledger.items.contains_key(auction_id) {
        Err(ContractError::NotFound {  })
    } else {
        let item = ledger.items[auction_id];
        let winner = winner_of(item);
        if item.resolved {
            Err(ContractError::Unauthorized {  })
        } else if now < item.end_time {
            Err(ContractError::Unauthorized {  })
        } else if winner is None || winner.unwrap() == item.creator {
            Ok(
                Outcome {
                    ledger: settled(ledger, auction_id),
                    response: ResponseView {
                        messages: seq![
                            InstructionView::TransferNft {
                                contract: item.nft_contract,
                                recipient: item.creator,
                                token_id: item.nft_id,
                            },
                        ],
                        attributes: withdraw_attributes(
                            auction_id,
                            sender,
                            item.creator,
                            item.creator,
                        ),
                    },
                },
            )
        } else {
            match payout_of(ledger, querier, item, winner.unwrap()) {
                Some(messages) => Ok(
                    Outcome {
                        ledger: settled(ledger, auction_id),
                        response: ResponseView {
                            messages,
                            attributes: withdraw_attributes(
                                auction_id,
                                sender,
                                item.creator,
                                winner.unwrap(),
                            ),
                        },
                    },
                ),
                None => Err(ContractError::Overflow {  }),
            }
        }
    }
}

/// Who has won the auction.
pub fn winner(item: &ItemInfo) -> (r: Option<String>)
    ensures
        text_of(r) == winner_of(item@),
{
    match (&item.highest_bidder, item.highest_bid) {
        (Some(bidder), Some(bid)) => {
            let below: bool = match item.reserve_price {
                Some(reserve) => reserve > bid,
                None => false,
            };
            if below {
                None
            } else {
                Some(bidder.clone())
            }
        },
        _ => None,
    }
}

/// Adds to `response` a transfer of `amount`, reduced by the tax, where the
/// amount is not zero.
fn add_payment(response: Response, to: &String, amount: u128, denom: &String, tax: &TaxInfo) -> (r:
    Response)
    requires
        after_tax(amount, *tax) is Some,
    ensures
        r@ == (ResponseView {
            messages: with_payment(response@.messages, to@, amount, denom@, *tax),
            ..response@
        }),
{
    if amount == 0 {
        response
    } else {
        let net: u128 = deduct_tax(amount, tax).unwrap();
        response.add_message(
            Instruction::Send { to_address: to.clone(), amount: net, denom: denom.clone() },
        )
    }
}

/// The attributes of a settlement, added to `response`.
fn add_withdraw_attributes(
    response: Response,
    auction_id: u64,
    sender: &String,
    creator: &String,
    recipient: &String,
) -> (r: Response)
    requires
        response@.attributes == Seq::<AttributeView>::empty(),
    ensures
        r@ == (ResponseView {
            attributes: withdraw_attributes(auction_id, sender@, creator@, recipient@),
            ..response@
        }),
{
    let r = response.add_attribute("auction_type", String::from_str("NFT")).add_attribute(
        "auction_id",
        u64_to_string(auction_id),
    ).add_attribute("sender", sender.clone()).add_attribute(
        "creator",
        creator.clone(),
    ).add_attribute("recipient", recipient.clone());
    assert(r@.attributes =~= withdraw_attributes(auction_id, sender@, creator@, recipient@));
    r
}

/// The instructions that hand the asset of the auction `item` to the winner
/// `w` and pay out the highest bid `bid`.
fn payout(ledger: &Ledger, querier: &Querier, item: &ItemInfo, w: &String, bid: u128) -> (r: Option<
    Response,
>)
    requires
        item.highest_bid == Some(bid),
    ensures
        match payout_of(ledger@, *querier, item@, w@) {
            Some(messages) => r is Some && r.unwrap()@ == (ResponseView {
                messages,
                attributes: Seq::empty(),
            }),
            None => r is None,
        },
{
    // The royalty: who is paid, and at which rate.
    let minter = querier.resolve_minter();
    let royalty: Option<(String, Decimal)> = match &minter {
        None => None,
        Some(m) => match ledger.load_royalty(m) {
            None => Some((m.clone(), Decimal::zero())),
            Some(record) => match record.recipient {
                Some(r) => Some((r, record.fee)),
                None => Some((m.clone(), record.fee)),
            },
        },
    };
    let royalty_rate = match &royalty {
        Some(t) => t.1,
        None => Decimal::zero(),
    };
    let fee_rate = if item.private_sale {
        ledger.config.lota_fee_low
    } else {
        ledger.config.lota_fee
    };
    let charity_rate = match &item.charity {
        Some(c) => Some(c.fee_percentage),
        None => None,
    };
    let split = match split_bid(bid, royalty_rate, fee_rate, charity_rate) {
        None => {
            return None;
        },
        Some(s) => s,
    };
    let reward: u128 = match mul_decimal(bid, ledger.config.sity_full_rewards) {
        None => {
            return None;
        },
        Some(x) => x,
    };
    if deduct_tax(0, &querier.tax).is_none() {
        return None;
    }
    let mut r = Response::new().add_message(
        Instruction::TransferNft {
            contract: item.nft_contract.clone(),
            recipient: w.clone(),
            token_id: item.nft_id.clone(),
        },
    );
    if bid != 0 {
        r = r.add_message(
            Instruction::Mint {
                contract: ledger.state.cw20_address.clone(),
                recipient: item.creator.clone(),
                amount: reward,
            },
        ).add_message(
            Instruction::Mint {
                contract: ledger.state.cw20_address.clone(),
                recipient: w.clone(),
                amount: reward,
            },
        );
    }
    r = add_payment(r, &item.creator, split.net, &ledger.config.denom, &querier.tax);
    match &royalty {
        Some(t) => {
            r = add_payment(r, &t.0, split.royalty, &ledger.config.denom, &querier.tax);
        },
        None => {},
    }
    r = add_payment(r, &ledger.config.lota_contract, split.fee, &ledger.config.denom, &querier.tax);
    match &item.charity {
        Some(c) => {
            r = add_payment(r, &c.address, split.charity, &ledger.config.denom, &querier.tax);
        },
        None => {},
    }
    Some(r)
}

/// Settles the auction `auction_id`: hands the asset to the winner and pays
/// out the winning bid, or hands the asset back to the creator where nobody
/// has won. Anyone may ask for it, once the auction has ended, and it is done
/// once.
pub fn execute_withdraw_nft(
    ledger: &mut Ledger,
    querier: &Querier,
    env: &Env,
    info: &MessageInfo,
    auction_id: u64,
) -> (res: Result<Response, ContractError>)
    ensures
        holds(
            old(ledger)@,
            final(ledger)@,
            res,
            withdraw(old(ledger)@, *querier, env.time, info.sender@, auction_id),
        ),
{
    let mut item = match ledger.load_item(auction_id) {
        None => {
            return Err(ContractError::NotFound {  });
        },
        Some(item) => item,
    };
    if item.resolved {
        return Err(ContractError::Unauthorized {  });
    }
    if env.time < item.end_time {
        return Err(ContractError::Unauthorized {  });
    }
    // The winner that is paid out, and the winning bid.
    let paid: Option<(String, u128)> = match (winner(&item), item.highest_bid) {
        (Some(w), Some(bid)) => if w == item.creator {
            None
        } else {
            Some((w, bid))
        },
        _ => None,
    };
    let response = match paid {
        None => {
            let r = Response::new().add_message(
                Instruction::TransferNft {
                    contract: item.nft_contract.clone(),
                    recipient: item.creator.clone(),
                    token_id: item.nft_id.clone(),
                },
            );
            add_withdraw_attributes(r, auction_id, &info.sender, &item.creator, &item.creator)
        },
        Some((w, bid)) => match payout(ledger, querier, &item, &w, bid) {
            None => {
                return Err(ContractError::Overflow {  });
            },
            Some(r) => add_withdraw_attributes(r, auction_id, &info.sender, &item.creator, &w),
        },
    };
    item.resolved = true;
    ledger.save_item(auction_id, item);
    Ok(response)
}

} // verus!
