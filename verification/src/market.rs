//! What the two feeds deliver: the oracle's price observation and the
//! exchange's best bid and ask.

use crate::decimal::{parsed, Decimal, Fixed};
use vstd::prelude::*;

verus! {

/// A price as the oracle reports it: the price `mantissa * 10^exponent` with
/// an uncertainty of `confidence * 10^exponent`.
#[derive(Clone, Copy, Debug, Default)]
pub struct PriceObservation {
    pub mantissa: i64,
    pub exponent: i32,
    pub confidence: u64,
}

/// The top of the exchange's order book, each number in the text form in
/// which the exchange sends it.
#[derive(Clone, Debug, Default)]
pub struct BookTicker {
    pub best_bid_price: String,
    pub best_bid_qty: String,
    pub best_ask_price: String,
    pub best_ask_qty: String,
}

/// The top of the order book as numbers. A field is empty where the feed's
/// text was no decimal number.
#[derive(Clone, Copy, Debug)]
pub struct Quote {
    pub best_bid_price: Option<Decimal>,
    pub best_bid_qty: Option<Decimal>,
    pub best_ask_price: Option<Decimal>,
    pub best_ask_qty: Option<Decimal>,
}

/// The mathematical content of a [`Quote`].
pub struct QuoteView {
    pub best_bid_price: Option<Fixed>,
    pub best_bid_qty: Option<Fixed>,
    pub best_ask_price: Option<Fixed>,
    pub best_ask_qty: Option<Fixed>,
}

impl View for Quote {
    type V = QuoteView;

    open spec fn view(&self) -> QuoteView {
        QuoteView {
            best_bid_price: crate::decimal::views(self.best_bid_price),
            best_bid_qty: crate::decimal::views(self.best_bid_qty),
            best_ask_price: crate::decimal::views(self.best_ask_price),
            best_ask_qty: crate::decimal::views(self.best_ask_qty),
        }
    }
}

impl BookTicker {
    /// The numbers that the four texts stand for.
    pub open spec fn numbers(&self) -> QuoteView {
        QuoteView {
            best_bid_price: parsed(self.best_bid_price@),
            best_bid_qty: parsed(self.best_bid_qty@),
            best_ask_price: parsed(self.best_ask_price@),
            best_ask_qty: parsed(self.best_ask_qty@),
        }
    }

    /// Reads the four texts as decimal numbers.
    pub fn parse(&self) -> (quote: Quote)
        ensures
            quote@ == self.numbers(),
    {
        Quote {
            best_bid_price: Decimal::from_str(self.best_bid_price.as_str()),
            best_bid_qty: Decimal::from_str(self.best_bid_qty.as_str()),
            best_ask_price: Decimal::from_str(self.best_ask_price.as_str()),
            best_ask_qty: Decimal::from_str(self.best_ask_qty.as_str()),
        }
    }
}

} // verus!
