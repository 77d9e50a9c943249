//! What all operations share: the limits of the marketplace, how the funds
//! sent along are read, and what it means for an operation to end as
//! expected.

use crate::error::ContractError;
use crate::host::{Coin, Response, ResponseView};
use crate::money::Decimal;
use crate::state::{BidInfo, LedgerView};
use vstd::prelude::*;

verus! {

/// The shortest time, in seconds, between the start and the end of an
/// auction, and between its creation and its end.
pub const MIN_TIME_AUCTION: u64 = 600;

/// The longest time, in seconds, between the start and the end of an auction,
/// and between its creation and its end: six months.
pub const MAX_TIME_AUCTION: u64 = 15778800;

/// A bid placed less than this many seconds before the end of an auction
/// extends the auction by as many seconds.
pub const LAST_MINUTE_BID_EXTRA_TIME: u64 = 600;

/// The highest royalty fee: ten percent.
pub open spec fn royalty_max_fee() -> Decimal {
    Decimal { atomics: 100_000_000_000_000_000 }
}

/// The royalty fee of a minter without a royalty record: nothing.
pub open spec fn default_royalty_fee() -> Decimal {
    Decimal { atomics: 0 }
}

/// The share of a cancellation fee that goes to the highest bidder, the rest
/// going to the platform: a half.
pub open spec fn cancellation_split() -> Decimal {
    Decimal { atomics: 500_000_000_000_000_000 }
}

/// What a successful operation leaves behind and returns.
pub struct Outcome {
    pub ledger: LedgerView,
    pub response: ResponseView,
}

/// An operation that took the ledger from `before` to `after` and returned
/// `result` has ended as `expected` says: on success the ledger and the
/// response are the expected ones; on failure the error is the expected one
/// and the ledger is as before.
pub open spec fn holds(
    before: LedgerView,
    after: LedgerView,
    result: Result<Response, ContractError>,
    expected: Result<Outcome, ContractError>,
) -> bool {
    match expected {
        Ok(outcome) => result is Ok && result->Ok_0@ == outcome.response && after
            == outcome.ledger,
        Err(e) => result == Err::<Response, ContractError>(e) && after == before,
    }
}

/// The amount that the funds sent along hold of the settlement currency:
/// they are to be one coin of that currency.
pub open spec fn funds_amount(funds: Seq<Coin>, denom: Seq<char>) -> Result<u128, ContractError> {
    if funds.len() == 0 {
        Err(ContractError::EmptyFunds {  })
    } else if funds.len() == 1 {
        if funds[0].denom@ != denom {
            Err(ContractError::WrongDenom {  })
        } else {
            Ok(funds[0].amount)
        }
    } else {
        Err(ContractError::MultipleDenoms {  })
    }
}

/// The amount that the funds sent along hold of the currency `denom`.
pub fn sent_funds(funds: &Vec<Coin>, denom: &String) -> (r: Result<u128, ContractError>)
    ensures
        r == funds_amount(funds@, denom@),
{
    if funds.len() == 0 {
        Err(ContractError::EmptyFunds {  })
    } else if funds.len() == 1 {
        if !(funds[0].denom == *denom) {
            Err(ContractError::WrongDenom {  })
        } else {
            Ok(funds[0].amount)
        }
    } else {
        Err(ContractError::MultipleDenoms {  })
    }
}

/// The escrow record of `who` on the auction `id`, if there is one.
pub open spec fn bid_of(ledger: LedgerView, id: u64, who: Seq<char>) -> Option<BidInfo> {
    if ledger.bids.contains_key((id, who)) {
        Some(ledger.bids[(id, who)])
    } else {
        None
    }
}

/// A counter after one more event, or `None` where it is at its limit.
pub open spec fn next_count(n: u64) -> Option<u64> {
    if n < u64::MAX {
        Some((n + 1) as u64)
    } else {
        None
    }
}

} // verus!
