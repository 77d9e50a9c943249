//! The deduction that the host's currency system takes from each transfer.
//!
//! The host names a rate and a cap. A transfer of a nominal amount is split
//! into what arrives and the tax on it, such that the tax is the rate applied
//! to what arrives, and never more than the cap.

use crate::money::{multiply_ratio, ratio_floor, Decimal, DECIMAL_FRACTIONAL};
use vstd::prelude::*;

verus! {

/// The host's tax on transfers of the settlement currency.
#[derive(Clone, Copy, Debug, PartialEq, Eq, Structural)]
pub struct TaxInfo {
    pub rate: Decimal,
    pub cap: u128,
}

/// The tax on a transfer of `amount`: the part of `amount` that exceeds
/// `amount / (1 + rate)` rounded down, but at most the cap. `None` where
/// `1 + rate` is no rate.
pub open spec fn tax_on(amount: u128, tax: TaxInfo) -> Option<u128> {
    if tax.rate.atomics + DECIMAL_FRACTIONAL > u128::MAX {
        None
    } else {
        let arrives = ratio_floor(
            amount as int,
            DECIMAL_FRACTIONAL as int,
            tax.rate.atomics + DECIMAL_FRACTIONAL,
        );
        if amount - arrives <= tax.cap {
            Some((amount - arrives) as u128)
        } else {
            Some(tax.cap)
        }
    }
}

/// What is left of `amount` once the tax on it is taken.
pub open spec fn after_tax(amount: u128, tax: TaxInfo) -> Option<u128> {
    match tax_on(amount, tax) {
        None => None,
        Some(t) => Some((amount - t) as u128),
    }
}

/// The tax is never more than the amount or the cap.
pub proof fn lemma_tax_bounded(amount: u128, tax: TaxInfo)
    requires
        tax.rate.atomics + DECIMAL_FRACTIONAL <= u128::MAX,
    ensures
        tax_on(amount, tax) is Some,
        tax_on(amount, tax).unwrap() <= amount,
        tax_on(amount, tax).unwrap() <= tax.cap,
        after_tax(amount, tax) is Some,
        after_tax(amount, tax).unwrap() <= amount,
{
    crate::money::lemma_ratio_floor_bounded(
        amount as int,
        DECIMAL_FRACTIONAL as int,
        tax.rate.atomics + DECIMAL_FRACTIONAL,
    );
}

/// The tax on a transfer of `amount`.
pub fn compute_tax(amount: u128, tax: &TaxInfo) -> (r: Option<u128>)
    ensures
        r == tax_on(amount, *tax),
{
    match tax.rate.atomics.checked_add(DECIMAL_FRACTIONAL) {
        None => None,
        Some(denominator) => {
            proof {
                crate::money::lemma_ratio_floor_bounded(
                    amount as int,
                    DECIMAL_FRACTIONAL as int,
                    denominator as int,
                );
            }
            let arrives: u128 = multiply_ratio(amount, DECIMAL_FRACTIONAL, denominator);
            let over: u128 = amount - arrives;
            if over <= tax.cap {
                Some(over)
            } else {
                Some(tax.cap)
            }
        },
    }
}

/// What a transfer of `amount` is reduced to by the tax on it.
pub fn deduct_tax(amount: u128, tax: &TaxInfo) -> (r: Option<u128>)
    ensures
        r == after_tax(amount, *tax),
{
    match compute_tax(amount, tax) {
        None => None,
        Some(t) => {
            proof {
                lemma_tax_bounded(amount, *tax);
            }
            Some(amount - t)
        },
    }
}

} // verus!
