//! Wallet authentication and marketplace order bookkeeping.
//!
//! A principal proves control of a wallet address by signing a single-use
//! challenge; once authenticated it may register sell orders (listings) and
//! buy orders (offers) that follow the exchange-order model.
pub mod address;
pub mod signature;
pub mod nonce;
pub mod auth;
pub mod order;
pub mod registry;
pub mod chain;
