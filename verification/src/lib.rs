//! A marketplace ledger for auctioning non-fungible assets.
//!
//! A creator lists an asset under one of several sale modes (ascending
//! auction, auction with reserve, instant buy, private sale); bidders compete
//! under margin and timing rules; on settlement the proceeds are split among
//! the creator, the platform, the royalty beneficiary and a charity, and a
//! reward token is minted to the creator and the winner.
//!
//! Every operation works on an explicit [`state::Ledger`] and returns the
//! instructions that the host is to carry out. An operation that fails leaves
//! the ledger as it was.

pub mod admission;
pub mod auction;
pub mod bidding;
pub mod coherence;
pub mod contract;
pub mod error;
pub mod host;
pub mod laws;
pub mod money;
pub mod msg;
pub mod query;
pub mod royalty;
pub mod rules;
pub mod settlement;
pub mod state;
pub mod table;
pub mod taxation;
pub mod text;

pub use crate::error::ContractError;
pub use crate::money::Decimal;
