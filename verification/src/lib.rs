//! A binary-outcome prediction market with an automated market maker, and the registry
//! that creates such markets and keeps their statistics.
//!
//! Traders buy and sell Yes and No shares against two reserves of one settlement currency,
//! liquidity providers deposit and withdraw, and the market's owner resolves it at its end,
//! after which winning shares are redeemed. All arithmetic is on unsigned 128-bit integers
//! with prices in units of `math::MULTIPLIER`; divisions round down.
//!
//! Every call is a function from the contract's state, the caller and the time to a new
//! state and a response, or to a rejection that changes nothing. What each call does is
//! stated over the mathematical views of these values; `market::laws` and
//! `market::invariants` state what holds of all calls together.

pub mod book;
pub mod error;
pub mod factory;
pub mod host;
pub mod market;
pub mod math;
pub mod packages;
pub mod pagination;
pub mod text;
