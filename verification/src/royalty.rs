//! The royalty registry: what a minter takes of every sale of its assets,
//! and who is paid. Only the minter itself sets its record.

use crate::error::ContractError;
use crate::host::{attr, AttributeView, MessageInfo, Response, ResponseView};
use crate::money::Decimal;
use crate::rules::{holds, royalty_max_fee, Outcome};
use crate::state::{text_of, Ledger, LedgerView, RoyaltyInfo, RoyaltyView};
use crate::text::{rate_text, rate_to_string};
use vstd::prelude::*;

verus! {

/// Who a royalty update names as the one to be paid: the recipient given,
/// else the sender.
pub open spec fn named_recipient(sender: Seq<char>, recipient: Option<Seq<char>>) -> Seq<char> {
    match recipient {
        Some(r) => r,
        None => sender,
    }
}

/// The record of `sender` after an update: a new record names the recipient
/// given, or the sender; a record that is there keeps its recipient unless
/// one is given.
pub open spec fn royalty_record_after(
    ledger: LedgerView,
    sender: Seq<char>,
    fee: Decimal,
    recipient: Option<Seq<char>>,
) -> RoyaltyView {
    if ledger.royalty.contains_key(sender) {
        let record = ledger.royalty[sender];
        RoyaltyView {
            fee,
            recipient: if recipient is Some {
                recipient
            } else {
                record.recipient
            },
            ..record
        }
    } else {
        RoyaltyView { creator: sender, fee, recipient: Some(named_recipient(sender, recipient)) }
    }
}

/// The attributes of a royalty update.
pub open spec fn royalty_attributes(sender: Seq<char>, fee: Decimal, recipient: Seq<char>) -> Seq<
    AttributeView,
> {
    seq![
        attr("update_royalty"@, sender),
        attr("royalty_fee"@, rate_text(fee.atomics as nat)),
        attr("recipient"@, recipient),
    ]
}

/// What setting the royalty of `sender` to `fee`, to be paid to `recipient`,
/// does. It is rejected where the fee is above the cap.
pub open spec fn update_royalty(
    ledger: LedgerView,
    sender: Seq<char>,
    fee: Decimal,
    recipient: Option<Seq<char>>,
) -> Result<Outcome, ContractError> {
    if fee.atomics > royalty_max_fee().atomics {
        Err(ContractError::MaxRoyaltyReached {  })
    } else {
        Ok(
            Outcome {
                ledger: LedgerView {
                    royalty: ledger.royalty.insert(
                        sender,
                        royalty_record_after(ledger, sender, fee, recipient),
                    ),
                    ..ledger
                },
                response: ResponseView {
                    messages: Seq::empty(),
                    attributes: royalty_attributes(
                        sender,
                        fee,
                        named_recipient(sender, recipient),
                    ),
                },
            },
        )
    }
}

/// Sets the royalty of the caller.
pub fn execute_update_royalty(
    ledger: &mut Ledger,
    info: &MessageInfo,
    fee: Decimal,
    recipient: Option<String>,
) -> (res: Result<Response, ContractError>)
    ensures
        holds(
            old(ledger)@,
            final(ledger)@,
            res,
            update_royalty(old(ledger)@, info.sender@, fee, text_of(recipient)),
        ),
{
    if fee.gt(&Decimal::percent(10)) {
        return Err(ContractError::MaxRoyaltyReached {  });
    }
    let set_recipient: String = match &recipient {
        Some(address) => address.clone(),
        None => info.sender.clone(),
    };
    let response = Response::new().add_attribute("update_royalty", info.sender.clone()).add_attribute(
        "royalty_fee",
        rate_to_string(fee.atomics),
    ).add_attribute("recipient", set_recipient.clone());
    assert(response@.attributes =~= royalty_attributes(
        info.sender@,
        fee,
        named_recipient(info.sender@, text_of(recipient)),
    ));
    let record = match ledger.load_royalty(&info.sender) {
        None => RoyaltyInfo {
            creator: info.sender.clone(),
            fee,
            recipient: Some(set_recipient),
        },
        Some(record) => {
            let mut updated = record;
            if recipient.is_some() {
                updated.recipient = Some(set_recipient);
            }
            updated.fee = fee;
            updated
        },
    };
    ledger.save_royalty(&info.sender, record);
    Ok(response)
}

} // verus!
