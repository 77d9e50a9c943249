//! The reasons for which an operation is rejected.

use vstd::prelude::*;

verus! {

/// The price that another price of a new auction is held against.
#[derive(Clone, Copy, Debug, PartialEq, Eq, Structural)]
pub enum PriceLimit {
    InstantBuy,
    ReservePrice,
}

/// Why an operation was rejected. An operation that returns one of these has
/// changed nothing and asks the host for nothing.
#[derive(Clone, Copy, Debug, PartialEq, Eq, Structural)]
pub enum ContractError {
    /// An auction, or the caller's bid record on it, does not exist.
    NotFound {},
    /// An amount, a counter or a time does not fit its integer type.
    Overflow {},
    Unauthorized {},
    EndTimeExpired {},
    /// The auction would run longer than the longest duration allowed.
    AuctionLimitReached {},
    PercentageFormat {},
    ZeroNotValid {},
    EmptyFunds {},
    WrongDenom {},
    MultipleDenoms {},
    AuctionNotStarted {},
    /// The instant-buy price, and the caller's escrow with this payment.
    InaccurateFunds(u128, u128),
    /// The least total that would be accepted, and the caller's escrow with
    /// this payment.
    MinBid(u128, u128),
    /// The deposit that registering for this private sale takes.
    PrivateSaleRestriction(u128),
    /// The instant-buy price, and the caller's escrow with this payment.
    UseInstantBuy(u128, u128),
    StartPriceHigherThan(PriceLimit),
    InstantBuyPriceLowerThan(PriceLimit),
    /// The royalty fee is above the cap.
    MaxRoyaltyReached {},
    /// The fee that cancelling this auction takes, in the settlement
    /// currency.
    CancelAuctionFee(u128),
}

} // verus!
