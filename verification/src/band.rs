//! The band of probable prices around an oracle price.
//!
//! The oracle's confidence is the scale of a Laplace distribution around its
//! price. 2.12 times the confidence to either side of the price covers 95%
//! of that distribution.

use crate::decimal::{
    common_scale, difference_result, exact_difference, exact_product, exact_sum, fits,
    lemma_exact_difference, lemma_exact_product, lemma_exact_sum, product_result, sum_result,
    surplus, Decimal, Fixed, MAX_SCALE,
};
use crate::error::DetectionError;
use crate::market::PriceObservation;
use vstd::arithmetic::div_mod::lemma_fundamental_div_mod;
use vstd::arithmetic::power::{lemma_pow_adds, lemma_pow_positive, pow};
use vstd::prelude::*;

verus! {

/// The largest scale at which the band of every observation is exact: the
/// two digits more that the widened confidence has still fit a decimal.
pub const MAX_EXACT_SCALE: u32 = 26;

/// The scale of an observation: the size of its exponent, whatever its sign.
pub open spec fn scale_of(exponent: i32) -> nat {
    if exponent < 0 {
        (-exponent) as nat
    } else {
        exponent as nat
    }
}

/// The factor 2.12 by which the confidence is widened.
pub open spec fn coverage_factor() -> Fixed {
    Fixed { mantissa: 212, scale: 2 }
}

/// The oracle's price as a decimal.
pub open spec fn price_of(observation: PriceObservation) -> Fixed {
    Fixed { mantissa: observation.mantissa as int, scale: scale_of(observation.exponent) }
}

/// The oracle's confidence as a decimal.
pub open spec fn confidence_of(observation: PriceObservation) -> Fixed {
    Fixed { mantissa: observation.confidence as int, scale: scale_of(observation.exponent) }
}

/// The band of probable prices of an observation, upper edge first: the
/// price plus and minus 2.12 times the confidence. There is none where the
/// exponent or the confidence is out of range, or the arithmetic overflows.
pub open spec fn probable_band(observation: PriceObservation) -> Result<
    (Fixed, Fixed),
    DetectionError,
> {
    let price = price_of(observation);
    if scale_of(observation.exponent) > MAX_SCALE {
        Err(DetectionError::ExponentOutOfRange)
    } else if observation.confidence > i64::MAX {
        Err(DetectionError::ConfidenceOutOfRange)
    } else {
        match product_result(confidence_of(observation), coverage_factor()) {
            Some(spread) => match (sum_result(price, spread), difference_result(price, spread)) {
                (Some(upper), Some(lower)) => Ok((upper, lower)),
                _ => Err(DetectionError::Overflow),
            },
            None => Err(DetectionError::Overflow),
        }
    }
}

/// The mathematical content of a band, or of the failure to compute one.
pub open spec fn band_view(r: Result<(Decimal, Decimal), DetectionError>) -> Result<
    (Fixed, Fixed),
    DetectionError,
> {
    match r {
        Ok((upper, lower)) => Ok((upper@, lower@)),
        Err(error) => Err(error),
    }
}

/// Whether the band of the observation can be written down digit for digit.
/// The widened confidence has two digits more than the observation; where
/// that makes more than 28, the digits beyond the 28th must be zero.
pub open spec fn band_is_exact(observation: PriceObservation) -> bool {
    &&& scale_of(observation.exponent) <= MAX_SCALE
    &&& observation.confidence <= i64::MAX
    &&& (212 * observation.confidence) % pow(10, surplus_of(observation)) == 0
}

/// How many digits of the widened confidence lie beyond the 28th: none up to
/// a scale of 26.
pub open spec fn surplus_of(observation: PriceObservation) -> nat {
    if scale_of(observation.exponent) > MAX_EXACT_SCALE {
        (scale_of(observation.exponent) - MAX_EXACT_SCALE) as nat
    } else {
        0
    }
}

/// Up to a scale of 26 the band of every observation is exact.
pub proof fn lemma_band_is_exact_up_to_26(observation: PriceObservation)
    requires
        scale_of(observation.exponent) <= MAX_EXACT_SCALE,
        observation.confidence <= i64::MAX,
    ensures
        band_is_exact(observation),
{
    lemma_small_powers();
}

/// How many units of `10^-28` one unit of the observation's last digit is.
pub open spec fn unit_of(observation: PriceObservation) -> int {
    pow(10, (MAX_SCALE - scale_of(observation.exponent)) as nat)
}

/// An exact band has the edges `price + 2.12 * confidence` and
/// `price - 2.12 * confidence`. Both sides are stated a hundredfold, which
/// keeps them whole numbers.
pub proof fn lemma_band_edges(observation: PriceObservation)
    requires
        band_is_exact(observation),
    ensures
        probable_band(observation) is Ok,
        probable_band(observation)->Ok_0.0.representable(),
        probable_band(observation)->Ok_0.1.representable(),
        probable_band(observation)->Ok_0.0.units() * 100 == (100 * observation.mantissa + 212
            * observation.confidence) * unit_of(observation),
        probable_band(observation)->Ok_0.1.units() * 100 == (100 * observation.mantissa - 212
            * observation.confidence) * unit_of(observation),
{
    let price = price_of(observation);
    let confidence = confidence_of(observation);
    let factor = coverage_factor();
    let unit = unit_of(observation);
    assert(confidence.mantissa * factor.mantissa == 212 * observation.confidence);
    assert(surplus(confidence, factor) == surplus_of(observation));
    assert(exact_product(confidence, factor) is Some);
    let spread = exact_product(confidence, factor)->0;
    assert(product_result(confidence, factor) == Some(spread));
    lemma_exact_product(confidence, factor);
    // 2.12 counts 212 * 10^26 units
    assert(factor.units() * 100 == 212 * pow(10, MAX_SCALE as nat)) by {
        lemma_pow_adds(10, 26, 2);
        lemma_small_powers();
    }
    assert(confidence.units() == observation.confidence * unit);
    assert(spread.units() * 100 == 212 * observation.confidence * unit) by {
        let whole = pow(10, MAX_SCALE as nat);
        lemma_pow_positive(10, MAX_SCALE as nat);
        assert(spread.units() * 100 == 212 * confidence.units()) by (nonlinear_arith)
            requires
                spread.units() * whole == confidence.units() * factor.units(),
                factor.units() * 100 == 212 * whole,
                whole > 0,
        ;
        assert(212 * (observation.confidence * unit) == 212 * observation.confidence * unit)
            by (nonlinear_arith);
    }
    assert(price.units() == observation.mantissa * unit);
    assert(exact_sum(price, spread) is Some && exact_difference(price, spread) is Some) by {
        if price.mantissa != 0 && spread.mantissa != 0 {
            lemma_small_powers();
            let cut = pow(10, surplus_of(observation));
            lemma_fundamental_div_mod(212 * observation.confidence, cut);
            assert(0 <= spread.mantissa <= 212 * observation.confidence) by (nonlinear_arith)
                requires
                    212 * observation.confidence == cut * spread.mantissa + 0,
                    cut >= 1,
                    observation.confidence >= 0,
            ;
            let scale = common_scale(price, spread);
            assert(scale == spread.scale);
            let digits = (scale - price.scale) as nat;
            assert(digits == 2 - surplus_of(observation));
            let lift = pow(10, digits);
            assert(lift == 1 || lift == 10 || lift == 100);
            assert(price.rescaled(scale) == price.mantissa * lift);
            assert(spread.rescaled(scale) == spread.mantissa * 1);
            assert(fits(price.rescaled(scale)));
            assert(fits(price.rescaled(scale) + spread.rescaled(scale)));
            assert(fits(price.rescaled(scale) - spread.rescaled(scale)));
        }
    }
    lemma_exact_sum(price, spread);
    lemma_exact_difference(price, spread);
    let upper = exact_sum(price, spread)->0;
    let lower = exact_difference(price, spread)->0;
    assert(probable_band(observation) == Ok::<(Fixed, Fixed), DetectionError>((upper, lower)));
    assert((price.units() + spread.units()) * 100 == (100 * observation.mantissa + 212
        * observation.confidence) * unit) by (nonlinear_arith)
        requires
            price.units() == observation.mantissa * unit,
            spread.units() * 100 == 212 * observation.confidence * unit,
    ;
    assert((price.units() - spread.units()) * 100 == (100 * observation.mantissa - 212
        * observation.confidence) * unit) by (nonlinear_arith)
        requires
            price.units() == observation.mantissa * unit,
            spread.units() * 100 == 212 * observation.confidence * unit,
    ;
}

/// An exact band is as wide as 4.24 times the confidence: the upper edge
/// minus the lower edge is `4.24 * confidence * 10^-scale`, stated a
/// hundredfold in units of `10^-28`. For an exponent that is not positive,
/// `10^-scale` is `10^exponent`.
pub proof fn lemma_band_width(observation: PriceObservation)
    requires
        band_is_exact(observation),
    ensures
        probable_band(observation) is Ok,
        (probable_band(observation)->Ok_0.0.units() - probable_band(observation)->Ok_0.1.units())
            * 100 == 424 * observation.confidence * unit_of(observation),
{
    lemma_band_edges(observation);
    let unit = unit_of(observation);
    let upper = probable_band(observation)->Ok_0.0.units();
    let lower = probable_band(observation)->Ok_0.1.units();
    assert((upper - lower) * 100 == 424 * observation.confidence * unit) by (nonlinear_arith)
        requires
            upper * 100 == (100 * observation.mantissa + 212 * observation.confidence) * unit,
            lower * 100 == (100 * observation.mantissa - 212 * observation.confidence) * unit,
    ;
}

/// In an exact band the lower edge is not above the upper edge.
pub proof fn lemma_band_ordered(observation: PriceObservation)
    requires
        band_is_exact(observation),
    ensures
        probable_band(observation) is Ok,
        probable_band(observation)->Ok_0.1.units() <= probable_band(observation)->Ok_0.0.units(),
{
    lemma_band_width(observation);
    let unit = unit_of(observation);
    lemma_pow_positive(10, (MAX_SCALE - scale_of(observation.exponent)) as nat);
    assert(424 * observation.confidence * unit >= 0) by (nonlinear_arith)
        requires
            observation.confidence >= 0,
            unit > 0,
    ;
}

/// The powers of ten up to a hundred.
proof fn lemma_small_powers()
    ensures
        pow(10, 0) == 1,
        pow(10, 1) == 10,
        pow(10, 2) == 100,
{
    reveal_with_fuel(pow, 3);
}

} // verus!
