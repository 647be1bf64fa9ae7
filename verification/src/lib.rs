//! Verified logic of three families of on-chain programs: a two-player
//! commit-reveal lottery, an oracle-settled two-party bet, and a
//! constant-product liquidity pool.
pub mod math;
pub mod common;
pub mod address;
pub mod hashing;
pub mod amm;
pub mod lottery;
pub mod bet;
