//! Detection of arbitrage opportunities between an exchange order book and
//! an oracle price feed.
//!
//! The oracle reports a price together with a confidence interval. The
//! library widens that interval into a band of probable prices and signals
//! when the best bid or the best ask of the exchange lies outside of it.

pub mod band;
pub mod config;
pub mod decimal;
pub mod error;
pub mod finder;
pub mod market;
