//! The detector: it compares the exchange's best bid and ask with the band of
//! probable oracle prices, and signals each opportunity once.

use crate::band::{
    band_is_exact, band_view, lemma_band_edges, lemma_band_ordered, probable_band, unit_of,
};
use crate::decimal::{
    difference_result, exact_difference, exact_product, lemma_exact_difference,
    lemma_exact_product, product_result, views, Decimal, Fixed, MAX_SCALE,
};
use crate::error::DetectionError;
use crate::market::{BookTicker, PriceObservation, Quote, QuoteView};
use vstd::arithmetic::power::{lemma_pow_positive, pow};
use vstd::prelude::*;
use vstd::std_specs::cmp::PartialEqSpecImpl;

verus! {

/// On which side of the band the exchange's price lies, and so what to do
/// on the exchange.
#[derive(Debug, Clone, Copy, PartialEq, Eq, Structural)]
pub enum ArbitrageDirection {
    /// The best bid is above the band: sell on the exchange.
    SellBinanceBuyDex,
    /// The best ask is below the band: buy on the exchange.
    BuyBinanceSellDex,
}

/// An opportunity: the exchange trades `quantity` at `binance_price`, which
/// lies outside the band by the edge `pyth_price`.
#[derive(Debug, Clone, Copy)]
pub struct ArbitrageOpportunity {
    pub direction: ArbitrageDirection,
    pub quantity: Decimal,
    pub estimated_profit: Decimal,
    pub binance_price: Decimal,
    pub pyth_price: Decimal,
}

/// The mathematical content of an [`ArbitrageOpportunity`].
pub struct OpportunityView {
    pub direction: ArbitrageDirection,
    pub quantity: Fixed,
    pub estimated_profit: Fixed,
    pub binance_price: Fixed,
    pub pyth_price: Fixed,
}

impl OpportunityView {
    /// Whether two opportunities have the same direction and the same four
    /// numbers. Numbers are the same by value: `1.0` is `1.00`.
    pub open spec fn same_as(self, other: OpportunityView) -> bool {
        &&& self.direction == other.direction
        &&& self.quantity.units() == other.quantity.units()
        &&& self.estimated_profit.units() == other.estimated_profit.units()
        &&& self.binance_price.units() == other.binance_price.units()
        &&& self.pyth_price.units() == other.pyth_price.units()
    }
}

impl View for ArbitrageOpportunity {
    type V = OpportunityView;

    open spec fn view(&self) -> OpportunityView {
        OpportunityView {
            direction: self.direction,
            quantity: self.quantity@,
            estimated_profit: self.estimated_profit@,
            binance_price: self.binance_price@,
            pyth_price: self.pyth_price@,
        }
    }
}

impl PartialEq for ArbitrageOpportunity {
    fn eq(&self, other: &ArbitrageOpportunity) -> (r: bool) {
        self.direction == other.direction && self.quantity == other.quantity
            && self.estimated_profit == other.estimated_profit && self.binance_price
            == other.binance_price && self.pyth_price == other.pyth_price
    }
}

impl Eq for ArbitrageOpportunity {

}

impl PartialEqSpecImpl for ArbitrageOpportunity {
    open spec fn obeys_eq_spec() -> bool {
        true
    }

    open spec fn eq_spec(&self, other: &ArbitrageOpportunity) -> bool {
        self@.same_as(other@)
    }
}

/// What the detector keeps of the last opportunity that it signalled: the
/// opportunity, and the band edge and the exchange price that gave it.
pub struct Remembered {
    pub opportunity: OpportunityView,
    pub oracle_edge: Fixed,
    pub exchange_price: Fixed,
}

impl Remembered {
    /// The edge and the price that are kept are those of the opportunity.
    pub open spec fn consistent(self) -> bool {
        self.oracle_edge == self.opportunity.pyth_price && self.exchange_price
            == self.opportunity.binance_price
    }
}

/// How a detection pass ends: what the detector remembers after it, and
/// what it hands back.
pub struct Detection {
    pub remembered: Option<Remembered>,
    pub outcome: Result<Option<OpportunityView>, DetectionError>,
}

/// The bid that makes selling on the exchange worthwhile: one above the band.
pub open spec fn sells(upper: Fixed, bid: Fixed) -> bool {
    bid.units() > upper.units()
}

/// The ask that makes buying on the exchange worthwhile: one below the band.
pub open spec fn buys(lower: Fixed, ask: Fixed) -> bool {
    ask.units() < lower.units()
}

/// How far the exchange's price lies outside the band, beyond the given edge.
pub open spec fn gap(direction: ArbitrageDirection, oracle_edge: Fixed, exchange_price: Fixed)
    -> Option<Fixed> {
    match direction {
        ArbitrageDirection::SellBinanceBuyDex => difference_result(exchange_price, oracle_edge),
        ArbitrageDirection::BuyBinanceSellDex => difference_result(oracle_edge, exchange_price),
    }
}

/// The opportunity that a price outside the band offers: the quoted quantity,
/// with the gap times the quantity as the estimated profit. There is none
/// where the quantity is malformed or the arithmetic overflows.
pub open spec fn candidate(
    direction: ArbitrageDirection,
    oracle_edge: Fixed,
    exchange_price: Fixed,
    quantity: Option<Fixed>,
) -> Result<OpportunityView, DetectionError> {
    match (quantity, gap(direction, oracle_edge, exchange_price)) {
        (None, _) => Err(DetectionError::MalformedQuote),
        (Some(_), None) => Err(DetectionError::Overflow),
        (Some(quantity), Some(gap)) => match product_result(gap, quantity) {
            Some(estimated_profit) => Ok(
                OpportunityView {
                    direction,
                    quantity,
                    estimated_profit,
                    binance_price: exchange_price,
                    pyth_price: oracle_edge,
                },
            ),
            None => Err(DetectionError::Overflow),
        },
    }
}

/// Whether the candidate is the opportunity that was signalled last, found
/// again at the same edge and the same price.
pub open spec fn repeats(last: Option<Remembered>, candidate: OpportunityView) -> bool {
    match last {
        Some(kept) => {
            &&& kept.opportunity.same_as(candidate)
            &&& kept.oracle_edge.units() == candidate.pyth_price.units()
            &&& kept.exchange_price.units() == candidate.binance_price.units()
        },
        None => false,
    }
}

/// What becomes of a candidate: a repeat is passed over and the memory
/// stays; anything else is remembered and signalled.
pub open spec fn recorded(last: Option<Remembered>, candidate: OpportunityView) -> Detection {
    if repeats(last, candidate) {
        Detection { remembered: last, outcome: Ok(None) }
    } else {
        Detection {
            remembered: Some(
                Remembered {
                    opportunity: candidate,
                    oracle_edge: candidate.pyth_price,
                    exchange_price: candidate.binance_price,
                },
            ),
            outcome: Ok(Some(candidate)),
        }
    }
}

/// What becomes of a side that was found open: its candidate is recorded,
/// and a failure to build it is handed on with the memory unchanged.
pub open spec fn settled(last: Option<Remembered>, found: Result<OpportunityView, DetectionError>)
    -> Detection {
    match found {
        Ok(candidate) => recorded(last, candidate),
        Err(error) => Detection { remembered: last, outcome: Err(error) },
    }
}

/// One detection pass over a band and a quote. The bid is looked at first:
/// where it is above the band, the ask is not looked at at all. A text of
/// the quote that is no number is a failure only where the pass needs it.
pub open spec fn detection(last: Option<Remembered>, upper: Fixed, lower: Fixed, quote: QuoteView)
    -> Detection {
    match quote.best_bid_price {
        None => Detection { remembered: last, outcome: Err(DetectionError::MalformedQuote) },
        Some(bid) => if sells(upper, bid) {
            settled(
                last,
                candidate(ArbitrageDirection::SellBinanceBuyDex, upper, bid, quote.best_bid_qty),
            )
        } else {
            match quote.best_ask_price {
                None => Detection {
                    remembered: last,
                    outcome: Err(DetectionError::MalformedQuote),
                },
                Some(ask) => if buys(lower, ask) {
                    settled(
                        last,
                        candidate(
                            ArbitrageDirection::BuyBinanceSellDex,
                            lower,
                            ask,
                            quote.best_ask_qty,
                        ),
                    )
                } else {
                    Detection { remembered: last, outcome: Ok(None) }
                },
            }
        },
    }
}

/// One detection pass over what the two feeds hold. Where either holds
/// nothing yet there is no opportunity, and the memory stays.
pub open spec fn finding(
    last: Option<Remembered>,
    price: Option<PriceObservation>,
    ticker: Option<BookTicker>,
) -> Detection {
    match (price, ticker) {
        (Some(price), Some(ticker)) => match probable_band(price) {
            Ok((upper, lower)) => detection(last, upper, lower, ticker.numbers()),
            Err(error) => Detection { remembered: last, outcome: Err(error) },
        },
        _ => Detection { remembered: last, outcome: Ok(None) },
    }
}

/// How far the exchange's price lies beyond the edge, in units of `10^-28`:
/// above it for a sale, below it for a purchase.
pub open spec fn distance(direction: ArbitrageDirection, oracle_edge: Fixed, exchange_price: Fixed)
    -> int {
    match direction {
        ArbitrageDirection::SellBinanceBuyDex => exchange_price.units() - oracle_edge.units(),
        ArbitrageDirection::BuyBinanceSellDex => oracle_edge.units() - exchange_price.units(),
    }
}

/// Whether the quote leaves a side open: a bid above the band or, failing
/// that, an ask below it.
pub open spec fn has_open_side(upper: Fixed, lower: Fixed, quote: QuoteView) -> bool {
    match (quote.best_bid_price, quote.best_ask_price) {
        (Some(bid), Some(ask)) => sells(upper, bid) || buys(lower, ask),
        (Some(bid), None) => sells(upper, bid),
        (None, _) => false,
    }
}

/// A second pass over unchanged inputs signals nothing. It leaves the memory
/// as the first pass left it, hands back nothing where the first pass
/// succeeded, and fails as the first pass failed. A detector that has
/// signalled nothing yet signals on its first successful pass whenever a
/// side is open.
pub proof fn lemma_detection_repeat_suppressed(
    last: Option<Remembered>,
    upper: Fixed,
    lower: Fixed,
    quote: QuoteView,
)
    ensures
        ({
            let first = detection(last, upper, lower, quote);
            let second = detection(first.remembered, upper, lower, quote);
            &&& second.remembered == first.remembered
            &&& first.outcome is Ok ==> second.outcome == Ok::<
                Option<OpportunityView>,
                DetectionError,
            >(None)
            &&& first.outcome is Err ==> second.outcome == first.outcome
            &&& last is None && first.outcome is Ok ==> (first.outcome->Ok_0 is Some
                <==> has_open_side(upper, lower, quote))
        }),
{
}

/// Calling the detector twice in succession on unchanged inputs yields the
/// opportunity on the first call at most, and nothing on the second: the
/// second call leaves the memory as the first left it, hands back nothing
/// where the first succeeded, and fails as the first failed.
pub proof fn lemma_repeat_suppressed(
    last: Option<Remembered>,
    price: Option<PriceObservation>,
    ticker: Option<BookTicker>,
)
    ensures
        ({
            let first = finding(last, price, ticker);
            let second = finding(first.remembered, price, ticker);
            &&& second.remembered == first.remembered
            &&& first.outcome is Ok ==> second.outcome == Ok::<
                Option<OpportunityView>,
                DetectionError,
            >(None)
            &&& first.outcome is Err ==> second.outcome == first.outcome
        }),
{
    if let (Some(price), Some(ticker)) = (price, ticker) {
        if let Ok((upper, lower)) = probable_band(price) {
            lemma_detection_repeat_suppressed(last, upper, lower, ticker.numbers());
        }
    }
}

/// The memory follows the signals: a pass that signals an opportunity
/// remembers that opportunity with its edge and its price, and every other
/// pass leaves the memory as it was. So a detector that remembers an
/// opportunity never forgets that it has signalled.
pub proof fn lemma_memory_follows_signals(
    last: Option<Remembered>,
    price: Option<PriceObservation>,
    ticker: Option<BookTicker>,
)
    ensures
        ({
            let pass = finding(last, price, ticker);
            &&& pass.outcome matches Ok(Some(signalled)) ==> pass.remembered == Some(
                Remembered {
                    opportunity: signalled,
                    oracle_edge: signalled.pyth_price,
                    exchange_price: signalled.binance_price,
                },
            )
            &&& !(pass.outcome matches Ok(Some(_))) ==> pass.remembered == last
            &&& last is Some ==> pass.remembered is Some
        }),
{
}

/// With a consistent memory, a candidate is a repeat exactly when it is the
/// same as the opportunity signalled last.
pub proof fn lemma_repeat_is_same_opportunity(kept: Remembered, candidate: OpportunityView)
    requires
        kept.consistent(),
    ensures
        repeats(Some(kept), candidate) == kept.opportunity.same_as(candidate),
{
}

/// Under a band whose lower edge is not above its upper edge, and an order
/// book whose bid is not above its ask, at most one side is open.
pub proof fn lemma_directions_exclusive(upper: Fixed, lower: Fixed, bid: Fixed, ask: Fixed)
    requires
        lower.units() <= upper.units(),
        bid.units() <= ask.units(),
    ensures
        !(sells(upper, bid) && buys(lower, ask)),
{
}

/// Under the exact band of an observation, and an order book whose bid is
/// not above its ask, at most one side is open.
pub proof fn lemma_exact_band_directions_exclusive(
    observation: PriceObservation,
    bid: Fixed,
    ask: Fixed,
)
    requires
        band_is_exact(observation),
        bid.units() <= ask.units(),
    ensures
        probable_band(observation) is Ok,
        !(sells(probable_band(observation)->Ok_0.0, bid) && buys(
            probable_band(observation)->Ok_0.1,
            ask,
        )),
{
    lemma_band_ordered(observation);
}

/// Where gap and profit can be computed exactly, the estimated profit is the
/// distance of the price from the edge times the quantity. Beyond the edge
/// the distance is positive, and the profit then has the sign of the
/// quantity.
pub proof fn lemma_exact_profit(
    direction: ArbitrageDirection,
    oracle_edge: Fixed,
    exchange_price: Fixed,
    quantity: Fixed,
)
    requires
        oracle_edge.representable(),
        exchange_price.representable(),
        quantity.representable(),
        match direction {
            ArbitrageDirection::SellBinanceBuyDex => exact_difference(exchange_price, oracle_edge),
            ArbitrageDirection::BuyBinanceSellDex => exact_difference(oracle_edge, exchange_price),
        } matches Some(gap) && exact_product(gap, quantity) is Some,
    ensures
        candidate(direction, oracle_edge, exchange_price, Some(quantity)) matches Ok(found) && ({
            let profit = found.estimated_profit.units();
            let distance = distance(direction, oracle_edge, exchange_price);
            &&& profit * pow(10, MAX_SCALE as nat) == distance * quantity.units()
            &&& distance > 0 && quantity.units() >= 0 ==> profit >= 0
            &&& distance > 0 && quantity.units() > 0 ==> profit > 0
        }),
{
    let (minuend, subtrahend) = match direction {
        ArbitrageDirection::SellBinanceBuyDex => (exchange_price, oracle_edge),
        ArbitrageDirection::BuyBinanceSellDex => (oracle_edge, exchange_price),
    };
    lemma_exact_difference(minuend, subtrahend);
    let gap = exact_difference(minuend, subtrahend)->0;
    lemma_exact_product(gap, quantity);
    let profit = exact_product(gap, quantity)->0.units();
    let whole = pow(10, MAX_SCALE as nat);
    lemma_pow_positive(10, MAX_SCALE as nat);
    assert(gap.units() > 0 && quantity.units() >= 0 ==> profit >= 0) by (nonlinear_arith)
        requires
            profit * whole == gap.units() * quantity.units(),
            whole > 0,
    ;
    assert(gap.units() > 0 && quantity.units() > 0 ==> profit > 0) by (nonlinear_arith)
        requires
            profit * whole == gap.units() * quantity.units(),
            whole > 0,
    ;
}

/// The mathematical content of a candidate, or of the failure to build one.
pub open spec fn found_view(r: Result<ArbitrageOpportunity, DetectionError>) -> Result<
    OpportunityView,
    DetectionError,
> {
    match r {
        Ok(opportunity) => Ok(opportunity@),
        Err(error) => Err(error),
    }
}

/// The mathematical content of what a detection pass hands back.
pub open spec fn outcome_view(r: Result<Option<ArbitrageOpportunity>, DetectionError>) -> Result<
    Option<OpportunityView>,
    DetectionError,
> {
    match r {
        Ok(Some(opportunity)) => Ok(Some(opportunity@)),
        Ok(None) => Ok(None),
        Err(error) => Err(error),
    }
}

/// The detector. It remembers the opportunity that it signalled last, so as
/// not to signal it again while nothing changes.
pub struct ArbitrageFinder {
    last_found: Option<(ArbitrageOpportunity, Decimal, Decimal)>,
}

impl View for ArbitrageFinder {
    type V = Option<Remembered>;

    closed spec fn view(&self) -> Option<Remembered> {
        match self.last_found {
            Some((opportunity, oracle_edge, exchange_price)) => Some(
                Remembered {
                    opportunity: opportunity@,
                    oracle_edge: oracle_edge@,
                    exchange_price: exchange_price@,
                },
            ),
            None => None,
        }
    }
}

impl ArbitrageFinder {
    /// What the detector remembers is consistent.
    #[verifier::type_invariant]
    pub open spec fn well_formed(self) -> bool {
        self@ matches Some(kept) ==> kept.consistent()
    }

    /// A detector that has signalled nothing yet.
    pub fn new() -> (finder: ArbitrageFinder)
        ensures
            finder@ is None,
    {
        ArbitrageFinder { last_found: None }
    }

    /// Runs one detection pass over what the two feeds hold at the moment.
    ///
    /// Hands back the opportunity, if there is a new one; nothing, if there
    /// is none or only the one signalled last; and a failure where a feed
    /// delivered what cannot be computed with.
    pub fn find_opportunity(
        &mut self,
        latest_pyth_price: Option<PriceObservation>,
        latest_binance_ticker_data: Option<BookTicker>,
    ) -> (r: Result<Option<ArbitrageOpportunity>, DetectionError>)
        ensures
            final(self)@ == finding(
                old(self)@,
                latest_pyth_price,
                latest_binance_ticker_data,
            ).remembered,
            outcome_view(r) == finding(
                old(self)@,
                latest_pyth_price,
                latest_binance_ticker_data,
            ).outcome,
            latest_pyth_price is None || latest_binance_ticker_data is None ==> r == Ok::<
                Option<ArbitrageOpportunity>,
                DetectionError,
            >(None) && final(self)@ == old(self)@,
    {
        let (pyth_price, ticker) = match (latest_pyth_price, latest_binance_ticker_data) {
            (Some(pyth_price), Some(ticker)) => (pyth_price, ticker),
            _ => {
                return Ok(None);
            },
        };
        let (upper, lower) = match self.get_pyth_confident_95_price(pyth_price) {
            Ok(band) => band,
            Err(error) => {
                return Err(error);
            },
        };
        let quote = ticker.parse();
        self.detect(upper, lower, quote)
    }

    /// Runs one detection pass over a band and a quote that are already
    /// numbers.
    pub fn detect(&mut self, upper: Decimal, lower: Decimal, quote: Quote) -> (r: Result<
        Option<ArbitrageOpportunity>,
        DetectionError,
    >)
        ensures
            final(self)@ == detection(old(self)@, upper@, lower@, quote@).remembered,
            outcome_view(r) == detection(old(self)@, upper@, lower@, quote@).outcome,
    {
        let bid = match quote.best_bid_price {
            Some(bid) => bid,
            None => {
                return Err(DetectionError::MalformedQuote);
            },
        };
        if bid.gt(upper) {
            return match Self::propose(
                ArbitrageDirection::SellBinanceBuyDex,
                upper,
                bid,
                quote.best_bid_qty,
            ) {
                Ok(candidate) => Ok(self.record(candidate)),
                Err(error) => Err(error),
            };
        }
        let ask = match quote.best_ask_price {
            Some(ask) => ask,
            None => {
                return Err(DetectionError::MalformedQuote);
            },
        };
        if ask.lt(lower) {
            return match Self::propose(
                ArbitrageDirection::BuyBinanceSellDex,
                lower,
                ask,
                quote.best_ask_qty,
            ) {
                Ok(candidate) => Ok(self.record(candidate)),
                Err(error) => Err(error),
            };
        }
        Ok(None)
    }

    /// Builds the opportunity that a price outside the band offers.
    pub fn propose(
        direction: ArbitrageDirection,
        oracle_edge: Decimal,
        exchange_price: Decimal,
        quantity: Option<Decimal>,
    ) -> (r: Result<ArbitrageOpportunity, DetectionError>)
        ensures
            found_view(r) == candidate(direction, oracle_edge@, exchange_price@, views(quantity)),
    {
        let quantity = match quantity {
            Some(quantity) => quantity,
            None => {
                return Err(DetectionError::MalformedQuote);
            },
        };
        let gap = match direction {
            ArbitrageDirection::SellBinanceBuyDex => exchange_price.checked_sub(oracle_edge),
            ArbitrageDirection::BuyBinanceSellDex => oracle_edge.checked_sub(exchange_price),
        };
        let estimated_profit = match gap {
            Some(gap) => match gap.checked_mul(quantity) {
                Some(estimated_profit) => estimated_profit,
                None => {
                    return Err(DetectionError::Overflow);
                },
            },
            None => {
                return Err(DetectionError::Overflow);
            },
        };
        Ok(
            ArbitrageOpportunity {
                direction,
                quantity,
                estimated_profit,
                binance_price: exchange_price,
                pyth_price: oracle_edge,
            },
        )
    }

    /// Takes note of a candidate. A repeat of the last signal is passed
    /// over; anything else is remembered and handed back to be signalled.
    pub fn record(&mut self, candidate: ArbitrageOpportunity) -> (r: Option<ArbitrageOpportunity>)
        ensures
            final(self)@ == recorded(old(self)@, candidate@).remembered,
            outcome_view(Ok(r)) == recorded(old(self)@, candidate@).outcome,
            r matches Some(signalled) ==> signalled == candidate,
    {
        if let Some((last_opportunity, oracle_edge, exchange_price)) = self.last_found {
            if last_opportunity == candidate && oracle_edge == candidate.pyth_price
                && candidate.binance_price == exchange_price {
                return None;
            }
        }
        self.last_found = Some((candidate, candidate.pyth_price, candidate.binance_price));
        Some(candidate)
    }

    /// The band of probable prices of an observation, upper edge first: the
    /// price plus and minus 2.12 times the confidence.
    pub fn get_pyth_confident_95_price(&self, pyth_price: PriceObservation) -> (r: Result<
        (Decimal, Decimal),
        DetectionError,
    >)
        ensures
            band_view(r) == probable_band(pyth_price),
            band_is_exact(pyth_price) ==> r is Ok && r->Ok_0.0@.units() * 100 == (100
                * pyth_price.mantissa + 212 * pyth_price.confidence) * unit_of(pyth_price)
                && r->Ok_0.1@.units() * 100 == (100 * pyth_price.mantissa - 212
                * pyth_price.confidence) * unit_of(pyth_price),
    {
        let exponent = pyth_price.exponent;
        if exponent < -(MAX_SCALE as i32) || exponent > MAX_SCALE as i32 {
            return Err(DetectionError::ExponentOutOfRange);
        }
        let scale: u32 = if exponent < 0 {
            (-exponent) as u32
        } else {
            exponent as u32
        };
        if pyth_price.confidence > i64::MAX as u64 {
            return Err(DetectionError::ConfidenceOutOfRange);
        }
        proof {
            if band_is_exact(pyth_price) {
                lemma_band_edges(pyth_price);
            }
        }
        let price = Decimal::new(pyth_price.mantissa, scale);
        let confidence = Decimal::new(pyth_price.confidence as i64, scale);
        let spread = match confidence.checked_mul(Decimal::new(212, 2)) {
            Some(spread) => spread,
            None => {
                return Err(DetectionError::Overflow);
            },
        };
        match (price.checked_add(spread), price.checked_sub(spread)) {
            (Some(upper), Some(lower)) => Ok((upper, lower)),
            _ => Err(DetectionError::Overflow),
        }
    }
}

} // verus!
