//! Verified core of a three-contract asset exchange: a fungible credit token
//! with signed withdrawals, an auction marketplace, and the NFT ledger the
//! marketplace escrows items in.

pub mod actor;
pub mod amounts;
pub mod bytes;
pub mod codec;
pub mod crypto;
pub mod exchange;
pub mod line_token;
pub mod marketplace;
pub mod nft;
pub mod tables;
pub mod u256;
