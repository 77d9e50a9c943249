//! What the marketplace keeps between operations: its configuration, the
//! auctions, the escrow of each bidder, the bid histories and the royalty
//! registry. Each executable type has a view, in which every text is a
//! sequence of characters and every table a map; the contracts of the
//! operations are stated over these views.

use crate::money::Decimal;
use crate::table::{
    entries, find_by_id, find_by_name, find_by_pair, id_key, lemma_store_at, lemma_table_absent,
    lemma_table_found, name_key, pair_key, store_at, table_map,
};
use vstd::prelude::*;

verus! {

/// The view of a text that may be missing.
pub open spec fn text_of(s: Option<String>) -> Option<Seq<char>> {
    match s {
        Some(t) => Some(t@),
        None => None,
    }
}

/// A copy of a text that may be missing.
pub fn clone_text(s: &Option<String>) -> (r: Option<String>)
    ensures
        r == *s,
{
    match s {
        Some(t) => Some(t.clone()),
        None => None,
    }
}

/// The parameters of the marketplace.
#[derive(Debug, PartialEq, Eq)]
pub struct Config {
    /// The settlement currency.
    pub denom: String,
    /// By how much of the standing bid a new bid has to exceed it.
    pub bid_margin: Decimal,
    /// The platform's share of a winning bid.
    pub lota_fee: Decimal,
    /// The platform's share of a winning bid of a private sale.
    pub lota_fee_low: Decimal,
    /// Who collects the platform's share.
    pub lota_contract: String,
    /// The reward minted to creator and winner, as a share of the winning bid.
    pub sity_full_rewards: Decimal,
    /// The rate of a reward on a refund. It is kept and told; no operation
    /// mints a reward on a refund.
    pub sity_partial_rewards: Decimal,
    /// The part of the deposit for a private sale that grows with the
    /// standing bid.
    pub sity_fee_registration: Decimal,
    /// The least deposit for a private sale.
    pub sity_min_opening: u128,
}

/// The view of the parameters.
pub struct ConfigView {
    pub denom: Seq<char>,
    pub bid_margin: Decimal,
    pub lota_fee: Decimal,
    pub lota_fee_low: Decimal,
    pub lota_contract: Seq<char>,
    pub sity_full_rewards: Decimal,
    pub sity_partial_rewards: Decimal,
    pub sity_fee_registration: Decimal,
    pub sity_min_opening: u128,
}

impl View for Config {
    type V = ConfigView;

    open spec fn view(&self) -> ConfigView {
        ConfigView {
            denom: self.denom@,
            bid_margin: self.bid_margin,
            lota_fee: self.lota_fee,
            lota_fee_low: self.lota_fee_low,
            lota_contract: self.lota_contract@,
            sity_full_rewards: self.sity_full_rewards,
            sity_partial_rewards: self.sity_partial_rewards,
            sity_fee_registration: self.sity_fee_registration,
            sity_min_opening: self.sity_min_opening,
        }
    }
}

impl Clone for Config {
    fn clone(&self) -> (r: Self)
        ensures
            r == *self,
    {
        Config {
            denom: self.denom.clone(),
            bid_margin: self.bid_margin,
            lota_fee: self.lota_fee,
            lota_fee_low: self.lota_fee_low,
            lota_contract: self.lota_contract.clone(),
            sity_full_rewards: self.sity_full_rewards,
            sity_partial_rewards: self.sity_partial_rewards,
            sity_fee_registration: self.sity_fee_registration,
            sity_min_opening: self.sity_min_opening,
        }
    }
}

/// The counter of auctions and the address of the reward token.
#[derive(Debug, PartialEq, Eq)]
pub struct State {
    /// The identifier that the next auction gets.
    pub counter_items: u64,
    /// The reward token. Until its deployment is confirmed, the marketplace's
    /// own address stands here.
    pub cw20_address: String,
}

/// The view of the counter and the reward token.
pub struct StateView {
    pub counter_items: u64,
    pub cw20_address: Seq<char>,
}

impl View for State {
    type V = StateView;

    open spec fn view(&self) -> StateView {
        StateView { counter_items: self.counter_items, cw20_address: self.cw20_address@ }
    }
}

impl Clone for State {
    fn clone(&self) -> (r: Self)
        ensures
            r == *self,
    {
        State { counter_items: self.counter_items, cw20_address: self.cw20_address.clone() }
    }
}

/// The fee for cancelling an auction that has a bid, as a share of that bid.
#[derive(Clone, Copy, Debug, PartialEq, Eq, Structural)]
pub struct Cancellation {
    pub cancellation_fee: Decimal,
}

/// A charity and its share of what is left of a winning bid after royalty
/// and platform fee.
#[derive(Debug, PartialEq, Eq)]
pub struct CharityInfo {
    pub address: String,
    pub fee_percentage: Decimal,
}

/// The view of a charity.
pub struct CharityView {
    pub address: Seq<char>,
    pub fee_percentage: Decimal,
}

impl View for CharityInfo {
    type V = CharityView;

    open spec fn view(&self) -> CharityView {
        CharityView { address: self.address@, fee_percentage: self.fee_percentage }
    }
}

impl Clone for CharityInfo {
    fn clone(&self) -> (r: Self)
        ensures
            r == *self,
    {
        CharityInfo { address: self.address.clone(), fee_percentage: self.fee_percentage }
    }
}

/// The view of a charity that may be missing.
pub open spec fn charity_of(c: Option<CharityInfo>) -> Option<CharityView> {
    match c {
        Some(info) => Some(info@),
        None => None,
    }
}

/// One auction.
#[derive(Debug, PartialEq, Eq)]
pub struct ItemInfo {
    pub creator: String,
    pub start_price: Option<u128>,
    pub start_time: u64,
    pub end_time: u64,
    pub highest_bid: Option<u128>,
    pub highest_bidder: Option<String>,
    pub nft_contract: String,
    pub nft_id: String,
    /// How many bids, instant buys and registrations for the private sale
    /// were accepted.
    pub total_bids: u64,
    pub charity: Option<CharityInfo>,
    pub instant_buy: Option<u128>,
    pub reserve_price: Option<u128>,
    pub private_sale: bool,
    pub resolved: bool,
}

/// The view of an auction.
pub struct ItemInfoView {
    pub creator: Seq<char>,
    pub start_price: Option<u128>,
    pub start_time: u64,
    pub end_time: u64,
    pub highest_bid: Option<u128>,
    pub highest_bidder: Option<Seq<char>>,
    pub nft_contract: Seq<char>,
    pub nft_id: Seq<char>,
    pub total_bids: u64,
    pub charity: Option<CharityView>,
    pub instant_buy: Option<u128>,
    pub reserve_price: Option<u128>,
    pub private_sale: bool,
    pub resolved: bool,
}

impl View for ItemInfo {
    type V = ItemInfoView;

    open spec fn view(&self) -> ItemInfoView {
        ItemInfoView {
            creator: self.creator@,
            start_price: self.start_price,
            start_time: self.start_time,
            end_time: self.end_time,
            highest_bid: self.highest_bid,
            highest_bidder: text_of(self.highest_bidder),
            nft_contract: self.nft_contract@,
            nft_id: self.nft_id@,
            total_bids: self.total_bids,
            charity: charity_of(self.charity),
            instant_buy: self.instant_buy,
            reserve_price: self.reserve_price,
            private_sale: self.private_sale,
            resolved: self.resolved,
        }
    }
}

impl Clone for ItemInfo {
    fn clone(&self) -> (r: Self)
        ensures
            r == *self,
    {
        ItemInfo {
            creator: self.creator.clone(),
            start_price: self.start_price,
            start_time: self.start_time,
            end_time: self.end_time,
            highest_bid: self.highest_bid,
            highest_bidder: clone_text(&self.highest_bidder),
            nft_contract: self.nft_contract.clone(),
            nft_id: self.nft_id.clone(),
            total_bids: self.total_bids,
            charity: match &self.charity {
                Some(c) => Some(c.clone()),
                None => None,
            },
            instant_buy: self.instant_buy,
            reserve_price: self.reserve_price,
            private_sale: self.private_sale,
            resolved: self.resolved,
        }
    }
}

/// The escrow of one bidder on one auction.
#[derive(Clone, Copy, Debug, PartialEq, Eq, Structural)]
pub struct BidInfo {
    /// How many bids and instant buys of this bidder were accepted.
    pub bid_counter: u64,
    /// What the bidder has paid in and not got back.
    pub total_bid: u128,
    /// The deposit that the bidder registered with, on a private sale.
    pub sity_used: Option<u128>,
    /// Whether the escrow has been paid out.
    pub resolved: bool,
}

/// One accepted bid or instant buy.
#[derive(Debug, PartialEq, Eq)]
pub struct HistoryBidInfo {
    pub bidder: String,
    /// The bidder's escrow once this bid was accepted.
    pub amount: u128,
    pub time: u64,
    pub instant_buy: bool,
}

/// The view of an entry of a history.
pub struct HistoryBidView {
    pub bidder: Seq<char>,
    pub amount: u128,
    pub time: u64,
    pub instant_buy: bool,
}

impl View for HistoryBidInfo {
    type V = HistoryBidView;

    open spec fn view(&self) -> HistoryBidView {
        HistoryBidView {
            bidder: self.bidder@,
            amount: self.amount,
            time: self.time,
            instant_buy: self.instant_buy,
        }
    }
}

impl Clone for HistoryBidInfo {
    fn clone(&self) -> (r: Self)
        ensures
            r == *self,
    {
        HistoryBidInfo {
            bidder: self.bidder.clone(),
            amount: self.amount,
            time: self.time,
            instant_buy: self.instant_buy,
        }
    }
}

/// The views of a sequence of bids.
pub open spec fn bids_view(bids: Seq<HistoryBidInfo>) -> Seq<HistoryBidView> {
    Seq::new(bids.len(), |i: int| bids[i]@)
}

/// The accepted bids of one bidder on one auction, oldest first.
#[derive(Debug, PartialEq, Eq)]
pub struct HistoryBidderInfo {
    pub bids: Vec<HistoryBidInfo>,
}

impl View for HistoryBidderInfo {
    type V = Seq<HistoryBidView>;

    open spec fn view(&self) -> Seq<HistoryBidView> {
        bids_view(self.bids@)
    }
}

/// The accepted bids on one auction, oldest first.
#[derive(Debug, PartialEq, Eq)]
pub struct HistoryInfo {
    pub bids: Vec<HistoryBidInfo>,
}

impl View for HistoryInfo {
    type V = Seq<HistoryBidView>;

    open spec fn view(&self) -> Seq<HistoryBidView> {
        bids_view(self.bids@)
    }
}

impl Clone for HistoryInfo {
    fn clone(&self) -> (r: Self)
        ensures
            r@ == self@,
    {
        let mut bids: Vec<HistoryBidInfo> = Vec::new();
        let mut i: usize = 0;
        while i < self.bids.len()
            invariant
                i <= self.bids.len(),
                bids.len() == i,
                forall|j: int| 0 <= j < i ==> bids[j] == self.bids[j],
            decreases self.bids.len() - i,
        {
            bids.push(self.bids[i].clone());
            i = i + 1;
        }
        let r = HistoryInfo { bids };
        r
    }
}

/// The royalty that a minter takes of every sale of its assets.
#[derive(Debug, PartialEq, Eq)]
pub struct RoyaltyInfo {
    pub creator: String,
    pub fee: Decimal,
    /// Who is paid; the creator where this is missing.
    pub recipient: Option<String>,
}

/// The view of a royalty record.
pub struct RoyaltyView {
    pub creator: Seq<char>,
    pub fee: Decimal,
    pub recipient: Option<Seq<char>>,
}

impl View for RoyaltyInfo {
    type V = RoyaltyView;

    open spec fn view(&self) -> RoyaltyView {
        RoyaltyView { creator: self.creator@, fee: self.fee, recipient: text_of(self.recipient) }
    }
}

impl Clone for RoyaltyInfo {
    fn clone(&self) -> (r: Self)
        ensures
            r == *self,
    {
        RoyaltyInfo {
            creator: self.creator.clone(),
            fee: self.fee,
            recipient: clone_text(&self.recipient),
        }
    }
}

/// What an indexing service answers when asked who minted an asset.
#[derive(Debug, PartialEq, Eq)]
pub struct TalisInfo {
    pub minter: Option<String>,
    pub max_supply: Option<u64>,
}

impl Clone for TalisInfo {
    fn clone(&self) -> (r: Self)
        ensures
            r == *self,
    {
        TalisInfo { minter: clone_text(&self.minter), max_supply: self.max_supply }
    }
}

/// How the view sees the values of the auction table.
pub open spec fn item_value() -> spec_fn(ItemInfo) -> ItemInfoView {
    |v: ItemInfo| v@
}

/// How the view sees the values of the escrow table.
pub open spec fn bid_value() -> spec_fn(BidInfo) -> BidInfo {
    |v: BidInfo| v
}

/// How the view sees the values of the two history tables.
pub open spec fn history_value() -> spec_fn(HistoryInfo) -> Seq<HistoryBidView> {
    |v: HistoryInfo| v@
}

/// How the view sees the values of the royalty registry.
pub open spec fn royalty_value() -> spec_fn(RoyaltyInfo) -> RoyaltyView {
    |v: RoyaltyInfo| v@
}

/// Everything the marketplace keeps. Each table is a list of entries, of
/// which the last one under a key counts.
#[derive(Debug, PartialEq, Eq)]
pub struct Ledger {
    pub config: Config,
    pub state: State,
    pub cancellation: Cancellation,
    /// The auctions, by identifier.
    pub items: Vec<(u64, ItemInfo)>,
    /// The escrow records, by auction and bidder.
    pub bids: Vec<((u64, String), BidInfo)>,
    /// The bid histories, by auction.
    pub histories: Vec<(u64, HistoryInfo)>,
    /// The bid histories, by auction and bidder.
    pub histories_bidder: Vec<((u64, String), HistoryInfo)>,
    /// The royalty records, by minter.
    pub royalty: Vec<(String, RoyaltyInfo)>,
}

/// The view of the ledger: its tables as maps from keys to the views of
/// their values.
pub struct LedgerView {
    pub config: ConfigView,
    pub state: StateView,
    pub cancellation: Cancellation,
    pub items: Map<u64, ItemInfoView>,
    pub bids: Map<(u64, Seq<char>), BidInfo>,
    pub histories: Map<u64, Seq<HistoryBidView>>,
    pub histories_bidder: Map<(u64, Seq<char>), Seq<HistoryBidView>>,
    pub royalty: Map<Seq<char>, RoyaltyView>,
}

impl View for Ledger {
    type V = LedgerView;

    open spec fn view(&self) -> LedgerView {
        LedgerView {
            config: self.config@,
            state: self.state@,
            cancellation: self.cancellation,
            items: table_map(entries(self.items@, id_key(), item_value())),
            bids: table_map(entries(self.bids@, pair_key(), bid_value())),
            histories: table_map(entries(self.histories@, id_key(), history_value())),
            histories_bidder: table_map(
                entries(self.histories_bidder@, pair_key(), history_value()),
            ),
            royalty: table_map(entries(self.royalty@, name_key(), royalty_value())),
        }
    }
}

impl Clone for Ledger {
    fn clone(&self) -> (r: Self)
        ensures
            r@ == self@,
    {
        let mut items: Vec<(u64, ItemInfo)> = Vec::new();
        let mut i: usize = 0;
        while i < self.items.len()
            invariant
                i <= self.items.len(),
                items.len() == i,
                forall|j: int| 0 <= j < i ==> items[j] == self.items[j],
            decreases self.items.len() - i,
        {
            items.push((self.items[i].0, self.items[i].1.clone()));
            i = i + 1;
        }
        let mut bids: Vec<((u64, String), BidInfo)> = Vec::new();
        let mut i: usize = 0;
        while i < self.bids.len()
            invariant
                i <= self.bids.len(),
                bids.len() == i,
                forall|j: int| 0 <= j < i ==> bids[j] == self.bids[j],
            decreases self.bids.len() - i,
        {
            bids.push(((self.bids[i].0.0, self.bids[i].0.1.clone()), self.bids[i].1));
            i = i + 1;
        }
        let mut histories: Vec<(u64, HistoryInfo)> = Vec::new();
        let mut i: usize = 0;
        while i < self.histories.len()
            invariant
                i <= self.histories.len(),
                histories.len() == i,
                forall|j: int|
                    0 <= j < i ==> histories[j].0 == self.histories[j].0 && histories[j].1@
                        == self.histories[j].1@,
            decreases self.histories.len() - i,
        {
            histories.push((self.histories[i].0, self.histories[i].1.clone()));
            i = i + 1;
        }
        let mut histories_bidder: Vec<((u64, String), HistoryInfo)> = Vec::new();
        let mut i: usize = 0;
        while i < self.histories_bidder.len()
            invariant
                i <= self.histories_bidder.len(),
                histories_bidder.len() == i,
                forall|j: int|
                    0 <= j < i ==> histories_bidder[j].0 == self.histories_bidder[j].0
                        && histories_bidder[j].1@ == self.histories_bidder[j].1@,
            decreases self.histories_bidder.len() - i,
        {
            histories_bidder.push(
                (
                    (self.histories_bidder[i].0.0, self.histories_bidder[i].0.1.clone()),
                    self.histories_bidder[i].1.clone(),
                ),
            );
            i = i + 1;
        }
        let mut royalty: Vec<(String, RoyaltyInfo)> = Vec::new();
        let mut i: usize = 0;
        while i < self.royalty.len()
            invariant
                i <= self.royalty.len(),
                royalty.len() == i,
                forall|j: int| 0 <= j < i ==> royalty[j] == self.royalty[j],
            decreases self.royalty.len() - i,
        {
            royalty.push((self.royalty[i].0.clone(), self.royalty[i].1.clone()));
            i = i + 1;
        }
        let r = Ledger {
            config: self.config.clone(),
            state: self.state.clone(),
            cancellation: self.cancellation,
            items,
            bids,
            histories,
            histories_bidder,
            royalty,
        };
        assert(entries(r.items@, id_key(), item_value()) =~= entries(
            self.items@,
            id_key(),
            item_value(),
        ));
        assert(entries(r.bids@, pair_key(), bid_value()) =~= entries(
            self.bids@,
            pair_key(),
            bid_value(),
        ));
        assert(entries(r.histories@, id_key(), history_value()) =~= entries(
            self.histories@,
            id_key(),
            history_value(),
        ));
        assert(entries(r.histories_bidder@, pair_key(), history_value()) =~= entries(
            self.histories_bidder@,
            pair_key(),
            history_value(),
        ));
        assert(entries(r.royalty@, name_key(), royalty_value()) =~= entries(
            self.royalty@,
            name_key(),
            royalty_value(),
        ));
        r
    }
}

impl Ledger {
    /// A ledger with the given parameters and no auction.
    pub fn new(config: Config, state: State, cancellation: Cancellation) -> (r: Ledger)
        ensures
            r@ == (LedgerView {
                config: config@,
                state: state@,
                cancellation: cancellation,
                items: Map::empty(),
                bids: Map::empty(),
                histories: Map::empty(),
                histories_bidder: Map::empty(),
                royalty: Map::empty(),
            }),
    {
        Ledger {
            config,
            state,
            cancellation,
            items: Vec::new(),
            bids: Vec::new(),
            histories: Vec::new(),
            histories_bidder: Vec::new(),
            royalty: Vec::new(),
        }
    }

    /// The auction `id`, if there is one.
    pub fn load_item(&self, id: u64) -> (r: Option<ItemInfo>)
        ensures
            match r {
                Some(item) => self@.items.contains_key(id) && self@.items[id] == item@,
                None => !self@.items.contains_key(id),
            },
    {
        let found = find_by_id(&self.items, id);
        let ghost e = entries(self.items@, id_key(), item_value());
        match found {
            Some(i) => {
                proof {
                    lemma_table_found(e, id, i as int);
                }
                Some(self.items[i].1.clone())
            },
            None => {
                proof {
                    lemma_table_absent(e, id);
                }
                None
            },
        }
    }

    /// Puts `item` in the place of the auction `id`.
    pub fn save_item(&mut self, id: u64, item: ItemInfo)
        ensures
            final(self)@ == (LedgerView {
                items: old(self)@.items.insert(id, item@),
                ..old(self)@
            }),
    {
        let found = find_by_id(&self.items, id);
        let ghost before = self.items@;
        store_at(&mut self.items, found, id, item);
        proof {
            lemma_store_at(before, self.items@, id_key(), item_value(), found, id, item);
        }
    }

    /// The escrow of `who` on the auction `id`, if there is a record of it.
    pub fn load_bid(&self, id: u64, who: &String) -> (r: Option<BidInfo>)
        ensures
            match r {
                Some(bid) => self@.bids.contains_key((id, who@)) && self@.bids[(id, who@)] == bid,
                None => !self@.bids.contains_key((id, who@)),
            },
    {
        let found = find_by_pair(&self.bids, id, who);
        let ghost e = entries(self.bids@, pair_key(), bid_value());
        match found {
            Some(i) => {
                proof {
                    lemma_table_found(e, (id, who@), i as int);
                }
                Some(self.bids[i].1)
            },
            None => {
                proof {
                    lemma_table_absent(e, (id, who@));
                }
                None
            },
        }
    }

    /// Puts `bid` in the place of the escrow of `who` on the auction `id`.
    pub fn save_bid(&mut self, id: u64, who: &String, bid: BidInfo)
        ensures
            final(self)@ == (LedgerView {
                bids: old(self)@.bids.insert((id, who@), bid),
                ..old(self)@
            }),
    {
        let found = find_by_pair(&self.bids, id, who);
        let ghost before = self.bids@;
        let key = (id, who.clone());
        store_at(&mut self.bids, found, key, bid);
        proof {
            lemma_store_at(before, self.bids@, pair_key(), bid_value(), found, key, bid);
        }
    }

    /// The history of the auction `id`, if one was begun.
    pub fn load_history(&self, id: u64) -> (r: Option<HistoryInfo>)
        ensures
            match r {
                Some(h) => self@.histories.contains_key(id) && self@.histories[id] == h@,
                None => !self@.histories.contains_key(id),
            },
    {
        let found = find_by_id(&self.histories, id);
        let ghost e = entries(self.histories@, id_key(), history_value());
        match found {
            Some(i) => {
                proof {
                    lemma_table_found(e, id, i as int);
                }
                Some(self.histories[i].1.clone())
            },
            None => {
                proof {
                    lemma_table_absent(e, id);
                }
                None
            },
        }
    }

    /// Puts `history` in the place of the history of the auction `id`.
    pub fn save_history(&mut self, id: u64, history: HistoryInfo)
        ensures
            final(self)@ == (LedgerView {
                histories: old(self)@.histories.insert(id, history@),
                ..old(self)@
            }),
    {
        let found = find_by_id(&self.histories, id);
        let ghost before = self.histories@;
        store_at(&mut self.histories, found, id, history);
        proof {
            lemma_store_at(
                before,
                self.histories@,
                id_key(),
                history_value(),
                found,
                id,
                history,
            );
        }
    }

    /// The history of `who` on the auction `id`, if one was begun.
    pub fn load_bidder_history(&self, id: u64, who: &String) -> (r: Option<HistoryInfo>)
        ensures
            match r {
                Some(h) => self@.histories_bidder.contains_key((id, who@))
                    && self@.histories_bidder[(id, who@)] == h@,
                None => !self@.histories_bidder.contains_key((id, who@)),
            },
    {
        let found = find_by_pair(&self.histories_bidder, id, who);
        let ghost e = entries(self.histories_bidder@, pair_key(), history_value());
        match found {
            Some(i) => {
                proof {
                    lemma_table_found(e, (id, who@), i as int);
                }
                Some(self.histories_bidder[i].1.clone())
            },
            None => {
                proof {
                    lemma_table_absent(e, (id, who@));
                }
                None
            },
        }
    }

    /// Puts `history` in the place of the history of `who` on the auction `id`.
    pub fn save_bidder_history(&mut self, id: u64, who: &String, history: HistoryInfo)
        ensures
            final(self)@ == (LedgerView {
                histories_bidder: old(self)@.histories_bidder.insert((id, who@), history@),
                ..old(self)@
            }),
    {
        let found = find_by_pair(&self.histories_bidder, id, who);
        let ghost before = self.histories_bidder@;
        let key = (id, who.clone());
        store_at(&mut self.histories_bidder, found, key, history);
        proof {
            lemma_store_at(
                before,
                self.histories_bidder@,
                pair_key(),
                history_value(),
                found,
                key,
                history,
            );
        }
    }

    /// The royalty record of the minter `who`, if it has one.
    pub fn load_royalty(&self, who: &String) -> (r: Option<RoyaltyInfo>)
        ensures
            match r {
                Some(info) => self@.royalty.contains_key(who@) && self@.royalty[who@] == info@,
                None => !self@.royalty.contains_key(who@),
            },
    {
        let found = find_by_name(&self.royalty, who);
        let ghost e = entries(self.royalty@, name_key(), royalty_value());
        match found {
            Some(i) => {
                proof {
                    lemma_table_found(e, who@, i as int);
                }
                Some(self.royalty[i].1.clone())
            },
            None => {
                proof {
                    lemma_table_absent(e, who@);
                }
                None
            },
        }
    }

    /// Puts `info` in the place of the royalty record of the minter `who`.
    pub fn save_royalty(&mut self, who: &String, info: RoyaltyInfo)
        ensures
            final(self)@ == (LedgerView {
                royalty: old(self)@.royalty.insert(who@, info@),
                ..old(self)@
            }),
    {
        let found = find_by_name(&self.royalty, who);
        let ghost before = self.royalty@;
        let key = who.clone();
        store_at(&mut self.royalty, found, key, info);
        proof {
            lemma_store_at(before, self.royalty@, name_key(), royalty_value(), found, key, info);
        }
    }
}

} // verus!
