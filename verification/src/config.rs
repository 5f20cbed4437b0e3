//! Configuration of a detection run.

use vstd::prelude::*;

verus! {

/// Which market and which oracle feed to compare.
#[derive(Clone, Debug)]
pub struct Config {
    /// The trading pair on the exchange's spot market.
    pub binance_ticker: String,
    /// The identifier of the oracle's price feed.
    pub pyth_price_id: String,
}

impl Config {
    /// A configuration for the given pair and price feed.
    pub fn new(binance_ticker: String, pyth_price_id: String) -> (config: Config)
        ensures
            config.binance_ticker@ == binance_ticker@,
            config.pyth_price_id@ == pyth_price_id@,
    {
        Config { binance_ticker, pyth_price_id }
    }
}

} // verus!
