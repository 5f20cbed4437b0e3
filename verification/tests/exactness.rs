use arbitrage_finder::decimal::Decimal;

const BOUND: i128 = 1 << 96;

/// A small generator of pseudo-random numbers, the same on every run.
struct Numbers {
    state: u64,
}

impl Numbers {
    fn next(&mut self) -> u64 {
        self.state ^= self.state << 13;
        self.state ^= self.state >> 7;
        self.state ^= self.state << 17;
        self.state
    }

    /// A mantissa of up to 96 bits, of every size and often small, round or zero.
    fn mantissa(&mut self) -> i128 {
        let bits = self.next() % 97;
        let wide = ((self.next() as u128) << 64) | self.next() as u128;
        let mut magnitude = if bits == 0 { 0 } else { (wide >> (128 - bits)) as i128 };
        let zeros = self.next() % 4;
        if zeros == 0 {
            let power = 10i128.pow((self.next() % 12) as u32);
            magnitude = magnitude / power * power;
        }
        if self.next() % 2 == 0 {
            -magnitude
        } else {
            magnitude
        }
    }

    fn scale(&mut self) -> u32 {
        (self.next() % 29) as u32
    }

    fn decimal(&mut self) -> (Decimal, i128, u32) {
        let (mantissa, scale) = (self.mantissa(), self.scale());
        (decimal(mantissa, scale), mantissa, scale)
    }
}

fn decimal(mantissa: i128, scale: u32) -> Decimal {
    let digits = format!("{:0>width$}", mantissa.unsigned_abs(), width = scale as usize + 1);
    let (whole, fraction) = digits.split_at(digits.len() - scale as usize);
    let sign = if mantissa < 0 { "-" } else { "" };
    let text = if scale == 0 {
        format!("{}{}", sign, whole)
    } else {
        format!("{}{}.{}", sign, whole, fraction)
    };
    let d = Decimal::from_str(&text).unwrap();
    assert_eq!((d.mantissa(), d.scale()), (mantissa, scale), "{}", text);
    d
}

fn parts(r: Option<Decimal>) -> Option<(i128, u32)> {
    r.map(|d| (d.mantissa(), d.scale()))
}

fn fits(m: i128) -> bool {
    -BOUND < m && m < BOUND
}

/// The mantissa at a larger scale, where it still fits a decimal.
fn rescaled(mantissa: i128, from: u32, to: u32) -> Option<i128> {
    mantissa.checked_mul(10i128.pow(to - from)).filter(|m| fits(*m))
}

/// The product of two numbers of up to 128 bits, as its upper and lower half.
fn wide_product(a: u128, b: u128) -> (u128, u128) {
    let mask = u64::MAX as u128;
    let (a1, a0) = (a >> 64, a & mask);
    let (b1, b0) = (b >> 64, b & mask);
    let low = a0 * b0;
    let mid1 = a1 * b0 + (low >> 64);
    let mid2 = a0 * b1 + (mid1 & mask);
    let high = a1 * b1 + (mid1 >> 64) + (mid2 >> 64);
    (high, (mid2 << 64) | (low & mask))
}

/// The number counted in units of `10^-28`: its sign and its size.
fn units(mantissa: i128, scale: u32) -> (bool, (u128, u128)) {
    (mantissa < 0, wide_product(mantissa.unsigned_abs(), 10u128.pow(28 - scale)))
}

fn below(a: (i128, u32), b: (i128, u32)) -> bool {
    let (a_negative, a_size) = units(a.0, a.1);
    let (b_negative, b_size) = units(b.0, b.1);
    match (a_negative, b_negative) {
        (false, false) => a_size < b_size,
        (true, true) => a_size > b_size,
        (true, false) => a_size != (0, 0) || b_size != (0, 0),
        (false, true) => false,
    }
}

#[test]
fn sums_are_exact_wherever_they_fit() {
    let mut numbers = Numbers { state: 0x9E3779B97F4A7C15 };
    let mut exact = 0;
    for _ in 0..40000 {
        let (a, am, asc) = numbers.decimal();
        let (b, bm, bsc) = numbers.decimal();
        let scale = asc.max(bsc);
        let expected = if am == 0 {
            Some((bm, bsc))
        } else if bm == 0 {
            Some((am, asc))
        } else {
            match (rescaled(am, asc, scale), rescaled(bm, bsc, scale)) {
                (Some(x), Some(y)) if fits(x + y) => Some((x + y, scale)),
                _ => None,
            }
        };
        if expected.is_some() {
            exact += 1;
            assert_eq!(parts(a.checked_add(b)), expected, "{:?} + {:?}", a, b);
        }
    }
    assert!(exact > 10000);
}

#[test]
fn differences_are_exact_wherever_they_fit() {
    let mut numbers = Numbers { state: 0xD1B54A32D192ED03 };
    let mut exact = 0;
    for _ in 0..40000 {
        let (a, am, asc) = numbers.decimal();
        let (b, bm, bsc) = numbers.decimal();
        let scale = asc.max(bsc);
        let expected = if am == 0 {
            Some((-bm, bsc))
        } else if bm == 0 {
            Some((am, asc))
        } else {
            match (rescaled(am, asc, scale), rescaled(bm, bsc, scale)) {
                (Some(x), Some(y)) if fits(x - y) => Some((x - y, scale)),
                _ => None,
            }
        };
        if expected.is_some() {
            exact += 1;
            assert_eq!(parts(a.checked_sub(b)), expected, "{:?} - {:?}", a, b);
        }
    }
    assert!(exact > 10000);
}

#[test]
fn products_are_exact_wherever_they_fit() {
    let mut numbers = Numbers { state: 0x2545F4914F6CDD1D };
    let mut exact = 0;
    let mut cut = 0;
    for _ in 0..80000 {
        let (a, am, asc) = numbers.decimal();
        let (b, bm, bsc) = numbers.decimal();
        let surplus = (asc + bsc).saturating_sub(28);
        let expected = if am == 0 || bm == 0 {
            Some((0, 0))
        } else {
            match am.checked_mul(bm) {
                Some(m) if fits(m) && m % 10i128.pow(surplus) == 0 => {
                    Some((m / 10i128.pow(surplus), asc + bsc - surplus))
                }
                _ => None,
            }
        };
        if expected.is_some() {
            exact += 1;
            if surplus > 0 && am != 0 && bm != 0 {
                cut += 1;
            }
            assert_eq!(parts(a.checked_mul(b)), expected, "{:?} * {:?}", a, b);
        }
    }
    assert!(exact > 10000);
    assert!(cut > 100);
}

#[test]
fn comparisons_go_by_value() {
    let mut numbers = Numbers { state: 0x94D049BB133111EB };
    let mut equal = 0;
    for round in 0..40000 {
        let (a, am, asc) = numbers.decimal();
        let (b, bm, bsc) = if round % 4 == 0 {
            // the same number at another scale, where that exists
            let scale = numbers.scale().max(asc);
            match rescaled(am, asc, scale) {
                Some(m) => (decimal(m, scale), m, scale),
                None => (a, am, asc),
            }
        } else {
            numbers.decimal()
        };
        let less = below((am, asc), (bm, bsc));
        let greater = below((bm, bsc), (am, asc));
        assert_eq!(a.lt(b), less, "{:?} < {:?}", a, b);
        assert_eq!(a.gt(b), greater, "{:?} > {:?}", a, b);
        assert_eq!(a == b, !less && !greater, "{:?} == {:?}", a, b);
        if !less && !greater {
            equal += 1;
        }
    }
    assert!(equal > 5000);
}
