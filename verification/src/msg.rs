//! The messages that the marketplace takes, and the answers to its queries.

use crate::money::Decimal;
use crate::state::{
    text_of, CharityView, ConfigView, HistoryBidView, ItemInfoView, RoyaltyView, StateView,
};
use vstd::prelude::*;

verus! {

/// The parameters that the marketplace is set up with.
#[derive(Debug, PartialEq, Eq)]
pub struct InstantiateMsg {
    pub denom: String,
    /// The code of the reward token, which the host is asked to deploy.
    pub cw20_code_id: u64,
    pub cw20_label: String,
    pub bid_margin: Decimal,
    pub lota_fee: Decimal,
    pub lota_fee_low: Decimal,
    pub lota_contract: String,
    pub sity_full_rewards: Decimal,
    pub sity_partial_rewards: Decimal,
    pub sity_fee_registration: Decimal,
    pub sity_min_opening: u128,
}

/// What comes with an asset or a deposit that is handed to the marketplace.
#[derive(Debug, PartialEq, Eq)]
pub enum ReceiveMsg {
    /// Create an auction for the asset.
    CreateAuctionNft {
        start_price: Option<u128>,
        start_time: Option<u64>,
        end_time: u64,
        charity: Option<CharityResponse>,
        instant_buy: Option<u128>,
        reserve_price: Option<u128>,
        private_sale: bool,
    },
    /// Register for a private sale with the deposit.
    RegisterPrivateSale { auction_id: u64 },
}

/// The notice of an asset's contract that `sender` has handed the asset
/// `token_id` to the marketplace.
#[derive(Debug, PartialEq, Eq)]
pub struct NftReceiveMsg {
    pub sender: String,
    pub token_id: String,
    pub msg: ReceiveMsg,
}

/// The notice of a token's contract that `sender` has handed `amount` of the
/// token to the marketplace.
#[derive(Debug, PartialEq, Eq)]
pub struct TokenReceiveMsg {
    pub sender: String,
    pub amount: u128,
    pub msg: ReceiveMsg,
}

/// The operations of the marketplace.
#[derive(Debug, PartialEq, Eq)]
pub enum ExecuteMsg {
    /// Place a bid with the funds sent along.
    PlaceBid { auction_id: u64 },
    /// Take back the escrow of a bid that did not win.
    RetractBids { auction_id: u64 },
    /// Settle an auction that has ended.
    WithdrawNft { auction_id: u64 },
    /// Buy at the instant-buy price with the funds sent along.
    InstantBuy { auction_id: u64 },
    /// Set the caller's royalty.
    UpdateRoyalty { fee: Decimal, recipient: Option<String> },
    /// An asset was handed over.
    ReceiveNft(NftReceiveMsg),
    /// A deposit of the reward token was handed over.
    Receive(TokenReceiveMsg),
    /// End an auction early.
    CancelAuction { auction_id: u64 },
}

/// The queries of the marketplace.
#[derive(Debug, PartialEq, Eq)]
pub enum QueryMsg {
    /// The auction with this identifier.
    Auction { auction_id: u64 },
    /// The escrow of this bidder on this auction.
    Bidder { auction_id: u64, address: String },
    /// The accepted bids on this auction.
    HistoryBids { auction_id: u64 },
    /// The accepted bids of this bidder on this auction.
    HistoryBidderBids { auction_id: u64, address: String },
    /// The parameters.
    Config {},
    /// The counter and the reward token.
    State {},
    /// The auctions after `start_after`, by identifier, `limit` at most.
    AllAuctions { start_after: Option<u64>, limit: Option<u32> },
    /// The royalty of this minter.
    Royalty { address: String },
}

/// What a migration is given: nothing.
#[derive(Clone, Copy, Debug, PartialEq, Eq, Structural)]
pub struct MigrateMsg {}

/// A charity and its share, as a message names it.
#[derive(Debug, PartialEq, Eq)]
pub struct CharityResponse {
    pub address: String,
    pub fee_percentage: Decimal,
}

impl View for CharityResponse {
    type V = CharityView;

    open spec fn view(&self) -> CharityView {
        CharityView { address: self.address@, fee_percentage: self.fee_percentage }
    }
}

/// The view of a charity of a message, which may be missing.
pub open spec fn charity_response_of(c: Option<CharityResponse>) -> Option<CharityView> {
    match c {
        Some(info) => Some(info@),
        None => None,
    }
}

/// What is told of an auction.
#[derive(Debug, PartialEq, Eq)]
pub struct AuctionResponse {
    pub creator: String,
    pub start_price: Option<u128>,
    pub start_time: u64,
    pub end_time: u64,
    pub highest_bid: Option<u128>,
    pub highest_bidder: Option<String>,
    pub nft_contract: String,
    pub nft_id: String,
    pub total_bids: u64,
    pub charity: Option<CharityResponse>,
    pub instant_buy: Option<u128>,
    pub reserve_price: Option<u128>,
    pub private_sale: bool,
    pub resolved: bool,
}

impl View for AuctionResponse {
    type V = ItemInfoView;

    open spec fn view(&self) -> ItemInfoView {
        ItemInfoView {
            creator: self.creator@,
            start_price: self.start_price,
            start_time: self.start_time,
            end_time: self.end_time,
            highest_bid: self.highest_bid,
            highest_bidder: text_of(self.highest_bidder),
            nft_contract: self.nft_contract@,
            nft_id: self.nft_id@,
            total_bids: self.total_bids,
            charity: charity_response_of(self.charity),
            instant_buy: self.instant_buy,
            reserve_price: self.reserve_price,
            private_sale: self.private_sale,
            resolved: self.resolved,
        }
    }
}

/// What is told of an escrow.
#[derive(Clone, Copy, Debug, PartialEq, Eq, Structural)]
pub struct BidResponse {
    pub bid_counter: u64,
    pub total_bid: u128,
    pub sity_used: Option<u128>,
}

/// What is told of the parameters of the marketplace.
#[derive(Debug, PartialEq, Eq)]
pub struct ConfigResponse {
    pub denom: String,
    pub bid_margin: Decimal,
    pub lota_fee: Decimal,
    pub lota_fee_low: Decimal,
    pub lota_contract: String,
    pub sity_full_rewards: Decimal,
    pub sity_partial_rewards: Decimal,
    pub sity_fee_registration: Decimal,
    pub sity_min_opening: u128,
    pub cancellation_fee: Decimal,
}

/// The view of what is told of the parameters.
pub struct ConfigResponseView {
    pub config: ConfigView,
    pub cancellation_fee: Decimal,
}

impl View for ConfigResponse {
    type V = ConfigResponseView;

    open spec fn view(&self) -> ConfigResponseView {
        ConfigResponseView {
            config: ConfigView {
                denom: self.denom@,
                bid_margin: self.bid_margin,
                lota_fee: self.lota_fee,
                lota_fee_low: self.lota_fee_low,
                lota_contract: self.lota_contract@,
                sity_full_rewards: self.sity_full_rewards,
                sity_partial_rewards: self.sity_partial_rewards,
                sity_fee_registration: self.sity_fee_registration,
                sity_min_opening: self.sity_min_opening,
            },
            cancellation_fee: self.cancellation_fee,
        }
    }
}

/// What is told of the counter of auctions and the reward token.
#[derive(Debug, PartialEq, Eq)]
pub struct StateResponse {
    pub counter_items: u64,
    pub cw20_address: String,
}

impl View for StateResponse {
    type V = StateView;

    open spec fn view(&self) -> StateView {
        StateView { counter_items: self.counter_items, cw20_address: self.cw20_address@ }
    }
}

/// What is told of an accepted bid.
#[derive(Debug, PartialEq, Eq)]
pub struct HistoryBidResponse {
    pub bidder: String,
    pub amount: u128,
    pub time: u64,
    pub instant_buy: bool,
}

impl View for HistoryBidResponse {
    type V = HistoryBidView;

    open spec fn view(&self) -> HistoryBidView {
        HistoryBidView {
            bidder: self.bidder@,
            amount: self.amount,
            time: self.time,
            instant_buy: self.instant_buy,
        }
    }
}

/// What is told of a history: its bids, oldest first.
#[derive(Debug, PartialEq, Eq)]
pub struct HistoryResponse {
    pub bids: Vec<HistoryBidResponse>,
}

impl View for HistoryResponse {
    type V = Seq<HistoryBidView>;

    open spec fn view(&self) -> Seq<HistoryBidView> {
        Seq::new(self.bids@.len(), |i: int| self.bids@[i]@)
    }
}

/// A page of auctions, each with its identifier.
#[derive(Debug, PartialEq, Eq)]
pub struct AllAuctionsResponse {
    pub auctions: Vec<(u64, AuctionResponse)>,
}

impl View for AllAuctionsResponse {
    type V = Seq<(u64, ItemInfoView)>;

    open spec fn view(&self) -> Seq<(u64, ItemInfoView)> {
        Seq::new(self.auctions@.len(), |i: int| (self.auctions@[i].0, self.auctions@[i].1@))
    }
}

/// What is told of the royalty of a minter.
#[derive(Debug, PartialEq, Eq)]
pub struct RoyaltyResponse {
    pub creator: String,
    pub fee: Decimal,
    pub recipient: Option<String>,
}

impl View for RoyaltyResponse {
    type V = RoyaltyView;

    open spec fn view(&self) -> RoyaltyView {
        RoyaltyView { creator: self.creator@, fee: self.fee, recipient: text_of(self.recipient) }
    }
}

/// The view of an answer.
pub enum QueryResponseView {
    Auction(ItemInfoView),
    Bidder(BidResponse),
    History(Seq<HistoryBidView>),
    Config(ConfigResponseView),
    State(StateView),
    AllAuctions(Seq<(u64, ItemInfoView)>),
    Royalty(RoyaltyView),
}

impl View for QueryResponse {
    type V = QueryResponseView;

    open spec fn view(&self) -> QueryResponseView {
        match *self {
            QueryResponse::Auction(r) => QueryResponseView::Auction(r@),
            QueryResponse::Bidder(r) => QueryResponseView::Bidder(r),
            QueryResponse::History(r) => QueryResponseView::History(r@),
            QueryResponse::Config(r) => QueryResponseView::Config(r@),
            QueryResponse::State(r) => QueryResponseView::State(r@),
            QueryResponse::AllAuctions(r) => QueryResponseView::AllAuctions(r@),
            QueryResponse::Royalty(r) => QueryResponseView::Royalty(r@),
        }
    }
}

/// The answer to a query, by the kind of query.
#[derive(Debug, PartialEq, Eq)]
pub enum QueryResponse {
    Auction(AuctionResponse),
    Bidder(BidResponse),
    History(HistoryResponse),
    Config(ConfigResponse),
    State(StateResponse),
    AllAuctions(AllAuctionsResponse),
    Royalty(RoyaltyResponse),
}

} // verus!
