//! Exact decimal numbers.
//!
//! A [`Decimal`] is an integer mantissa together with a scale, and stands for
//! `mantissa * 10^-scale`. Arithmetic and parsing are done by the
//! `rust_decimal` crate; this module states what its operations return.

use std::str::FromStr;
use vstd::arithmetic::div_mod::lemma_fundamental_div_mod;
use vstd::arithmetic::power::{lemma_pow_adds, lemma_pow_positive, pow};
use vstd::prelude::*;
use vstd::std_specs::cmp::PartialEqSpecImpl;

verus! {

/// The largest scale that a decimal can carry.
pub const MAX_SCALE: u32 = 28;

/// Mantissas lie strictly between `-MANTISSA_BOUND` and `MANTISSA_BOUND`: they have 96 bits.
pub const MANTISSA_BOUND: i128 = 79_228_162_514_264_337_593_543_950_336;

/// The mathematical content of a decimal: the number `mantissa * 10^-scale`.
pub struct Fixed {
    pub mantissa: int,
    pub scale: nat,
}

/// Whether `m` can be the mantissa of a decimal.
pub open spec fn fits(m: int) -> bool {
    -MANTISSA_BOUND < m < MANTISSA_BOUND
}

impl Fixed {
    /// Whether a [`Decimal`] can hold this number as it is written.
    pub open spec fn representable(self) -> bool {
        fits(self.mantissa) && self.scale <= MAX_SCALE
    }

    /// The number counted in units of `10^-28`. Two representable numbers are
    /// equal, or one is below the other, as their units are.
    pub open spec fn units(self) -> int {
        self.mantissa * pow(10, (MAX_SCALE - self.scale) as nat)
    }

    /// The mantissa that the number has when it is written with `scale` digits
    /// after the point, for a `scale` that is not below its own.
    pub open spec fn rescaled(self, scale: nat) -> int {
        self.mantissa * pow(10, (scale - self.scale) as nat)
    }

    /// The number with the opposite sign.
    pub open spec fn negated(self) -> Fixed {
        Fixed { mantissa: -self.mantissa, scale: self.scale }
    }
}

/// The larger of the two scales.
pub open spec fn common_scale(a: Fixed, b: Fixed) -> nat {
    if a.scale >= b.scale {
        a.scale
    } else {
        b.scale
    }
}

/// Whether both numbers still fit a decimal once written at their common scale.
pub open spec fn aligned(a: Fixed, b: Fixed) -> bool {
    fits(a.rescaled(common_scale(a, b))) && fits(b.rescaled(common_scale(a, b)))
}

/// What `rust_decimal` returns for `a + b` where the digits of the exact sum
/// cannot all be kept: a rounded sum, or nothing on overflow.
pub uninterp spec fn rounded_sum(a: Fixed, b: Fixed) -> Option<Fixed>;

/// What `rust_decimal` returns for `a - b` where the digits of the exact
/// difference cannot all be kept: a rounded difference, or nothing on overflow.
pub uninterp spec fn rounded_difference(a: Fixed, b: Fixed) -> Option<Fixed>;

/// What `rust_decimal` returns for `a * b` where the digits of the exact
/// product cannot all be kept: a rounded product, or nothing on overflow.
pub uninterp spec fn rounded_product(a: Fixed, b: Fixed) -> Option<Fixed>;

/// What `rust_decimal` reads from a text: the number written there, or nothing
/// where the text is no decimal number.
pub uninterp spec fn parsed(text: Seq<char>) -> Option<Fixed>;

/// The sum of two decimals where every digit of it can be kept, and nothing
/// elsewhere. Adding zero changes nothing; two other numbers are added at
/// their common scale, if they and their sum fit there.
pub open spec fn exact_sum(a: Fixed, b: Fixed) -> Option<Fixed> {
    let scale = common_scale(a, b);
    let mantissa = a.rescaled(scale) + b.rescaled(scale);
    if a.mantissa == 0 {
        Some(b)
    } else if b.mantissa == 0 {
        Some(a)
    } else if aligned(a, b) && fits(mantissa) {
        Some(Fixed { mantissa, scale })
    } else {
        None
    }
}

/// The difference of two decimals where every digit of it can be kept, and
/// nothing elsewhere. Zero minus a number is that number negated, a number
/// minus zero is itself; two other numbers are subtracted at their common
/// scale, if they and their difference fit there.
pub open spec fn exact_difference(a: Fixed, b: Fixed) -> Option<Fixed> {
    let scale = common_scale(a, b);
    let mantissa = a.rescaled(scale) - b.rescaled(scale);
    if a.mantissa == 0 {
        Some(b.negated())
    } else if b.mantissa == 0 {
        Some(a)
    } else if aligned(a, b) && fits(mantissa) {
        Some(Fixed { mantissa, scale })
    } else {
        None
    }
}

/// How many digits the product of two decimals has beyond the 28 that a
/// decimal can carry after the point.
pub open spec fn surplus(a: Fixed, b: Fixed) -> nat {
    if a.scale + b.scale > MAX_SCALE {
        (a.scale + b.scale - MAX_SCALE) as nat
    } else {
        0
    }
}

/// The product of two decimals where every digit of it can be kept, and
/// nothing elsewhere. A zero factor gives the plain zero. Two other numbers
/// are multiplied mantissa by mantissa, if that fits, and the scales are
/// added; surplus digits are dropped, which is exact if they are all zero.
pub open spec fn exact_product(a: Fixed, b: Fixed) -> Option<Fixed> {
    let mantissa = a.mantissa * b.mantissa;
    let cut = pow(10, surplus(a, b));
    if a.mantissa == 0 || b.mantissa == 0 {
        Some(Fixed { mantissa: 0, scale: 0 })
    } else if fits(mantissa) && mantissa % cut == 0 {
        Some(Fixed { mantissa: mantissa / cut, scale: (a.scale + b.scale - surplus(a, b)) as nat })
    } else {
        None
    }
}

/// What [`Decimal::checked_add`] returns: the exact sum where there is one.
pub open spec fn sum_result(a: Fixed, b: Fixed) -> Option<Fixed> {
    if exact_sum(a, b) is Some {
        exact_sum(a, b)
    } else {
        rounded_sum(a, b)
    }
}

/// What [`Decimal::checked_sub`] returns: the exact difference where there is one.
pub open spec fn difference_result(a: Fixed, b: Fixed) -> Option<Fixed> {
    if exact_difference(a, b) is Some {
        exact_difference(a, b)
    } else {
        rounded_difference(a, b)
    }
}

/// What [`Decimal::checked_mul`] returns: the exact product where there is one.
pub open spec fn product_result(a: Fixed, b: Fixed) -> Option<Fixed> {
    if exact_product(a, b) is Some {
        exact_product(a, b)
    } else {
        rounded_product(a, b)
    }
}

/// Writing a number with more digits after the point does not change it: its
/// mantissa at a larger scale, counted in units, is its own count of units.
pub proof fn lemma_rescaled_units(a: Fixed, scale: nat)
    requires
        a.scale <= scale <= MAX_SCALE,
    ensures
        a.rescaled(scale) * pow(10, (MAX_SCALE - scale) as nat) == a.units(),
{
    let up = pow(10, (scale - a.scale) as nat);
    let rest = pow(10, (MAX_SCALE - scale) as nat);
    lemma_pow_adds(10, (scale - a.scale) as nat, (MAX_SCALE - scale) as nat);
    assert((a.mantissa * up) * rest == a.mantissa * (up * rest)) by (nonlinear_arith);
}

/// An exact sum is the sum: it counts as many units as both numbers together.
pub proof fn lemma_exact_sum(a: Fixed, b: Fixed)
    requires
        a.representable(),
        b.representable(),
        exact_sum(a, b) is Some,
    ensures
        exact_sum(a, b)->0.representable(),
        exact_sum(a, b)->0.units() == a.units() + b.units(),
{
    if a.mantissa != 0 && b.mantissa != 0 {
        let scale = common_scale(a, b);
        let rest = pow(10, (MAX_SCALE - scale) as nat);
        lemma_rescaled_units(a, scale);
        lemma_rescaled_units(b, scale);
        assert((a.rescaled(scale) + b.rescaled(scale)) * rest == a.rescaled(scale) * rest
            + b.rescaled(scale) * rest) by (nonlinear_arith);
    }
}

/// An exact difference is the difference: it counts as many units as the
/// first number has more than the second.
pub proof fn lemma_exact_difference(a: Fixed, b: Fixed)
    requires
        a.representable(),
        b.representable(),
        exact_difference(a, b) is Some,
    ensures
        exact_difference(a, b)->0.representable(),
        exact_difference(a, b)->0.units() == a.units() - b.units(),
{
    if a.mantissa == 0 {
        let rest = pow(10, (MAX_SCALE - b.scale) as nat);
        assert((-b.mantissa) * rest == -(b.mantissa * rest)) by (nonlinear_arith);
    } else if b.mantissa != 0 {
        let scale = common_scale(a, b);
        let rest = pow(10, (MAX_SCALE - scale) as nat);
        lemma_rescaled_units(a, scale);
        lemma_rescaled_units(b, scale);
        assert((a.rescaled(scale) - b.rescaled(scale)) * rest == a.rescaled(scale) * rest
            - b.rescaled(scale) * rest) by (nonlinear_arith);
    }
}

/// An exact product is the product: counted in units of `10^-28`, it is the
/// product of both counts divided by `10^28`.
pub proof fn lemma_exact_product(a: Fixed, b: Fixed)
    requires
        a.representable(),
        b.representable(),
        exact_product(a, b) is Some,
    ensures
        exact_product(a, b)->0.representable(),
        exact_product(a, b)->0.units() * pow(10, MAX_SCALE as nat) == a.units() * b.units(),
{
    let whole = pow(10, MAX_SCALE as nat);
    if a.mantissa == 0 || b.mantissa == 0 {
        assert(0 * whole == 0);
        assert(a.units() * b.units() == 0) by (nonlinear_arith)
            requires
                a.units() == 0 || b.units() == 0,
        ;
    } else {
        let product = exact_product(a, b)->0;
        let mantissa = a.mantissa * b.mantissa;
        let cut = pow(10, surplus(a, b));
        let pa = pow(10, (MAX_SCALE - a.scale) as nat);
        let pb = pow(10, (MAX_SCALE - b.scale) as nat);
        let rest = pow(10, (MAX_SCALE - product.scale) as nat);
        lemma_pow_positive(10, surplus(a, b));
        lemma_fundamental_div_mod(mantissa, cut);
        assert(mantissa == product.mantissa * cut) by (nonlinear_arith)
            requires
                mantissa == cut * product.mantissa + 0,
        ;
        assert(fits(product.mantissa)) by (nonlinear_arith)
            requires
                mantissa == product.mantissa * cut,
                cut >= 1,
                fits(mantissa),
        ;
        // 10^28 * 10^28 = 10^(28 - a.scale) * 10^(28 - b.scale) * 10^(a.scale + b.scale)
        //               = 10^(28 - a.scale) * 10^(28 - b.scale) * cut * 10^product.scale
        lemma_pow_adds(10, (MAX_SCALE - a.scale) as nat, a.scale);
        lemma_pow_adds(10, (MAX_SCALE - b.scale) as nat, b.scale);
        lemma_pow_adds(10, a.scale, b.scale);
        lemma_pow_adds(10, surplus(a, b), product.scale);
        lemma_pow_adds(10, (MAX_SCALE - product.scale) as nat, product.scale);
        let up = pow(10, product.scale);
        let sa = pow(10, a.scale);
        let sb = pow(10, b.scale);
        lemma_pow_positive(10, product.scale);
        assert(pa * sa == whole);
        assert(pb * sb == whole);
        assert(sa * sb == cut * up);
        assert(rest * up == whole);
        let both = pa * pb * cut;
        assert(both * up == whole * whole) by (nonlinear_arith)
            requires
                both == pa * pb * cut,
                pa * sa == whole,
                pb * sb == whole,
                sa * sb == cut * up,
        ;
        assert((rest * whole) * up == whole * whole) by (nonlinear_arith)
            requires
                rest * up == whole,
        ;
        assert(both == rest * whole) by (nonlinear_arith)
            requires
                both * up == (rest * whole) * up,
                up > 0,
        ;
        assert((product.mantissa * rest) * whole == product.mantissa * (rest * whole))
            by (nonlinear_arith);
        assert(product.mantissa * (pa * pb * cut) == (product.mantissa * cut) * (pa * pb))
            by (nonlinear_arith);
        assert((a.mantissa * b.mantissa) * (pa * pb) == (a.mantissa * pa) * (b.mantissa * pb))
            by (nonlinear_arith);
    }
}

/// The mathematical content of an optional decimal.
pub open spec fn views(r: Option<Decimal>) -> Option<Fixed> {
    match r {
        Some(d) => Some(d@),
        None => None,
    }
}

/// The error type of `rust_decimal`.
#[verifier::external_type_specification]
#[verifier::external_body]
pub struct ExDecimalError(rust_decimal::Error);

/// An exact decimal number of up to 96 bits and 28 decimal places.
#[derive(Clone, Copy, Debug)]
pub struct Decimal {
    mantissa: i128,
    scale: u32,
}

impl View for Decimal {
    type V = Fixed;

    closed spec fn view(&self) -> Fixed {
        Fixed { mantissa: self.mantissa as int, scale: self.scale as nat }
    }
}

impl Decimal {
    /// Every decimal is representable.
    #[verifier::type_invariant]
    pub open spec fn well_formed(self) -> bool {
        self@.representable()
    }

    /// The decimal `num * 10^-scale`.
    pub fn new(num: i64, scale: u32) -> (d: Decimal)
        requires
            scale <= MAX_SCALE,
        ensures
            d@ == (Fixed { mantissa: num as int, scale: scale as nat }),
    {
        Decimal { mantissa: num as i128, scale }
    }

    /// Reads a decimal from its text, such as `"71.2833"`.
    pub fn from_str(text: &str) -> (r: Option<Decimal>)
        ensures
            views(r) == parsed(text@),
    {
        match Decimal::outside_parse(text) {
            Ok(d) => Some(d),
            Err(_) => None,
        }
    }

    /// The mantissa: the number without its decimal point.
    pub fn mantissa(&self) -> (m: i128)
        ensures
            m == self@.mantissa,
    {
        self.mantissa
    }

    /// The scale: how many digits stand after the decimal point.
    pub fn scale(&self) -> (s: u32)
        ensures
            s == self@.scale,
    {
        self.scale
    }

    /// The sum, or nothing where it overflows.
    pub fn checked_add(self, other: Decimal) -> (r: Option<Decimal>)
        ensures
            views(r) == sum_result(self@, other@),
    {
        proof {
            use_type_invariant(&self);
            use_type_invariant(&other);
        }
        self.outside_add(other)
    }

    /// The difference, or nothing where it overflows.
    pub fn checked_sub(self, other: Decimal) -> (r: Option<Decimal>)
        ensures
            views(r) == difference_result(self@, other@),
    {
        proof {
            use_type_invariant(&self);
            use_type_invariant(&other);
        }
        self.outside_sub(other)
    }

    /// The product, or nothing where it overflows.
    pub fn checked_mul(self, other: Decimal) -> (r: Option<Decimal>)
        ensures
            views(r) == product_result(self@, other@),
    {
        proof {
            use_type_invariant(&self);
            use_type_invariant(&other);
        }
        self.outside_mul(other)
    }

    /// Whether this number is greater than the other.
    pub fn gt(self, other: Decimal) -> (r: bool)
        ensures
            r == (self@.units() > other@.units()),
    {
        proof {
            use_type_invariant(&self);
            use_type_invariant(&other);
        }
        self.outside_gt(other)
    }

    /// Whether this number is less than the other.
    pub fn lt(self, other: Decimal) -> (r: bool)
        ensures
            r == (self@.units() < other@.units()),
    {
        proof {
            use_type_invariant(&self);
            use_type_invariant(&other);
        }
        self.outside_lt(other)
    }

    /// Calls `rust_decimal::Decimal::from_str`. The result is whatever that
    /// function reads from the text, under the name [`parsed`]; nothing more
    /// is claimed of it.
    #[verifier::external_body]
    fn outside_parse(text: &str) -> (r: Result<Decimal, rust_decimal::Error>)
        ensures
            r matches Ok(d) ==> d@.representable(),
            match r {
                Ok(d) => parsed(text@) == Some(d@),
                Err(_) => parsed(text@) is None,
            },
    {
        match rust_decimal::Decimal::from_str(text) {
            Ok(d) => Ok(Decimal { mantissa: d.mantissa(), scale: d.scale() }),
            Err(e) => Err(e),
        }
    }

    /// Calls `rust_decimal::Decimal::checked_add`. Claimed of it: a zero
    /// operand leaves the other as it is; two other operands that fit at
    /// their common scale, with a sum that fits there, give exactly that sum
    /// at that scale. For the rest the result goes by the name
    /// [`rounded_sum`].
    #[verifier::external_body]
    fn outside_add(self, other: Decimal) -> (r: Option<Decimal>)
        requires
            self@.representable(),
            other@.representable(),
        ensures
            r matches Some(d) ==> d@.representable(),
            exact_sum(self@, other@) is Some ==> views(r) == exact_sum(self@, other@),
            exact_sum(self@, other@) is None ==> views(r) == rounded_sum(self@, other@),
    {
        let a = rust_decimal::Decimal::from_i128_with_scale(self.mantissa, self.scale);
        let b = rust_decimal::Decimal::from_i128_with_scale(other.mantissa, other.scale);
        match a.checked_add(b) {
            Some(d) => Some(Decimal { mantissa: d.mantissa(), scale: d.scale() }),
            None => None,
        }
    }

    /// Calls `rust_decimal::Decimal::checked_sub`. Claimed of it: zero minus a
    /// number is that number negated, a number minus zero is itself; two
    /// other operands that fit at their common scale, with a difference that
    /// fits there, give exactly that difference at that scale. For the rest
    /// the result goes by the name [`rounded_difference`].
    #[verifier::external_body]
    fn outside_sub(self, other: Decimal) -> (r: Option<Decimal>)
        requires
            self@.representable(),
            other@.representable(),
        ensures
            r matches Some(d) ==> d@.representable(),
            exact_difference(self@, other@) is Some ==> views(r) == exact_difference(self@, other@),
            exact_difference(self@, other@) is None ==> views(r) == rounded_difference(self@, other@),
    {
        let a = rust_decimal::Decimal::from_i128_with_scale(self.mantissa, self.scale);
        let b = rust_decimal::Decimal::from_i128_with_scale(other.mantissa, other.scale);
        match a.checked_sub(b) {
            Some(d) => Some(Decimal { mantissa: d.mantissa(), scale: d.scale() }),
            None => None,
        }
    }

    /// Calls `rust_decimal::Decimal::checked_mul`. Claimed of it: a zero
    /// factor gives zero with scale 0; two other factors whose mantissas'
    /// product has at most 96 bits give exactly that product, with the
    /// scales added, if these add up to at most 28; if they add up to more,
    /// and the digits beyond the 28th are all zero, they give the product
    /// without these digits, at scale 28. For the rest the result goes by
    /// the name [`rounded_product`].
    #[verifier::external_body]
    fn outside_mul(self, other: Decimal) -> (r: Option<Decimal>)
        requires
            self@.representable(),
            other@.representable(),
        ensures
            r matches Some(d) ==> d@.representable(),
            exact_product(self@, other@) is Some ==> views(r) == exact_product(self@, other@),
            exact_product(self@, other@) is None ==> views(r) == rounded_product(self@, other@),
    {
        let a = rust_decimal::Decimal::from_i128_with_scale(self.mantissa, self.scale);
        let b = rust_decimal::Decimal::from_i128_with_scale(other.mantissa, other.scale);
        match a.checked_mul(b) {
            Some(d) => Some(Decimal { mantissa: d.mantissa(), scale: d.scale() }),
            None => None,
        }
    }

    /// Calls `gt` of `rust_decimal::Decimal`, which compares by numeric
    /// value whatever the scales are.
    #[verifier::external_body]
    fn outside_gt(self, other: Decimal) -> (r: bool)
        requires
            self@.representable(),
            other@.representable(),
        ensures
            r == (self@.units() > other@.units()),
    {
        let a = rust_decimal::Decimal::from_i128_with_scale(self.mantissa, self.scale);
        let b = rust_decimal::Decimal::from_i128_with_scale(other.mantissa, other.scale);
        a.gt(&b)
    }

    /// Calls `lt` of `rust_decimal::Decimal`, which compares by numeric
    /// value whatever the scales are.
    #[verifier::external_body]
    fn outside_lt(self, other: Decimal) -> (r: bool)
        requires
            self@.representable(),
            other@.representable(),
        ensures
            r == (self@.units() < other@.units()),
    {
        let a = rust_decimal::Decimal::from_i128_with_scale(self.mantissa, self.scale);
        let b = rust_decimal::Decimal::from_i128_with_scale(other.mantissa, other.scale);
        a.lt(&b)
    }

    /// Calls `eq` of `rust_decimal::Decimal`, which holds of two decimals of
    /// the same numeric value, whatever the scales are.
    #[verifier::external_body]
    fn outside_eq(self, other: Decimal) -> (r: bool)
        requires
            self@.representable(),
            other@.representable(),
        ensures
            r == (self@.units() == other@.units()),
    {
        let a = rust_decimal::Decimal::from_i128_with_scale(self.mantissa, self.scale);
        let b = rust_decimal::Decimal::from_i128_with_scale(other.mantissa, other.scale);
        a.eq(&b)
    }
}

impl PartialEq for Decimal {
    /// Two decimals are equal when they stand for the same number: `1.0`
    /// equals `1.00`.
    fn eq(&self, other: &Decimal) -> (r: bool) {
        proof {
            use_type_invariant(self);
            use_type_invariant(other);
        }
        self.outside_eq(*other)
    }
}

impl Eq for Decimal {

}

impl PartialEqSpecImpl for Decimal {
    open spec fn obeys_eq_spec() -> bool {
        true
    }

    open spec fn eq_spec(&self, other: &Decimal) -> bool {
        self@.units() == other@.units()
    }
}

} // verus!
