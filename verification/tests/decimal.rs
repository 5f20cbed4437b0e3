use arbitrage_finder::config::Config;
use arbitrage_finder::decimal::Decimal;
use arbitrage_finder::market::BookTicker;

fn parts(d: Decimal) -> (i128, u32) {
    (d.mantissa(), d.scale())
}

#[test]
fn new_keeps_mantissa_and_scale() {
    assert_eq!(parts(Decimal::new(212, 2)), (212, 2));
    assert_eq!(parts(Decimal::new(-5, 28)), (-5, 28));
    assert_eq!(parts(Decimal::new(i64::MIN, 0)), (i64::MIN as i128, 0));
}

#[test]
fn from_str_reads_decimal_texts() {
    assert_eq!(parts(Decimal::from_str("71.2833").unwrap()), (712833, 4));
    assert_eq!(parts(Decimal::from_str("0.8574").unwrap()), (8574, 4));
    assert_eq!(parts(Decimal::from_str("-12.50").unwrap()), (-1250, 2));
    assert_eq!(parts(Decimal::from_str("42").unwrap()), (42, 0));
    assert_eq!(
        parts(Decimal::from_str("79228162514264337593543950335").unwrap()),
        (79228162514264337593543950335, 0)
    );
}

#[test]
fn from_str_refuses_what_is_no_number() {
    for text in ["", "abc", "1,5", "--1", "1.2.3", " "] {
        assert!(Decimal::from_str(text).is_none());
    }
}

#[test]
fn equality_is_by_value() {
    assert_eq!(Decimal::new(10, 1), Decimal::new(1, 0));
    assert_eq!(Decimal::new(0, 5), Decimal::new(0, 0));
    assert_eq!(Decimal::from_str("1.50").unwrap(), Decimal::from_str("1.5").unwrap());
    assert_ne!(Decimal::new(15, 1), Decimal::new(15, 2));
    assert_ne!(Decimal::new(1, 0), Decimal::new(-1, 0));
}

#[test]
fn checked_add_is_exact_at_the_common_scale() {
    let sum = Decimal::new(15, 1).checked_add(Decimal::new(225, 2)).unwrap();
    assert_eq!(parts(sum), (375, 2));
    let sum = Decimal::new(-15, 1).checked_add(Decimal::new(15, 1)).unwrap();
    assert_eq!(parts(sum), (0, 1));
    let sum = Decimal::new(4856126854, 5).checked_add(Decimal::new(129840460, 7)).unwrap();
    assert_eq!(parts(sum), (485742525860, 7));
    let sum = Decimal::new(i64::MAX, 0).checked_add(Decimal::new(1, 9)).unwrap();
    assert_eq!(parts(sum), (i64::MAX as i128 * 1_000_000_000 + 1, 9));
}

#[test]
fn checked_add_of_zero_changes_nothing() {
    assert_eq!(parts(Decimal::new(0, 4).checked_add(Decimal::new(7, 1)).unwrap()), (7, 1));
    assert_eq!(parts(Decimal::new(7, 1).checked_add(Decimal::new(0, 4)).unwrap()), (7, 1));
    assert_eq!(parts(Decimal::new(0, 4).checked_add(Decimal::new(0, 1)).unwrap()), (0, 1));
}

#[test]
fn checked_sub_is_exact_at_the_common_scale() {
    let difference = Decimal::new(712833, 4).checked_sub(Decimal::new(7127225988, 8)).unwrap();
    assert_eq!(parts(difference), (1104012, 8));
    let difference = Decimal::new(15, 1).checked_sub(Decimal::new(225, 2)).unwrap();
    assert_eq!(parts(difference), (-75, 2));
    let difference = Decimal::new(15, 1).checked_sub(Decimal::new(150, 2)).unwrap();
    assert_eq!(parts(difference), (0, 2));
    let difference = Decimal::new(-15, 1).checked_sub(Decimal::new(-225, 2)).unwrap();
    assert_eq!(parts(difference), (75, 2));
}

#[test]
fn checked_sub_with_zero() {
    assert_eq!(parts(Decimal::new(0, 4).checked_sub(Decimal::new(7, 1)).unwrap()), (-7, 1));
    assert_eq!(parts(Decimal::new(0, 4).checked_sub(Decimal::new(-7, 1)).unwrap()), (7, 1));
    assert_eq!(parts(Decimal::new(7, 1).checked_sub(Decimal::new(0, 4)).unwrap()), (7, 1));
    assert_eq!(parts(Decimal::new(0, 4).checked_sub(Decimal::new(0, 1)).unwrap()), (0, 1));
}

#[test]
fn checked_mul_adds_the_scales() {
    let product = Decimal::new(1104012, 8).checked_mul(Decimal::new(8574, 4)).unwrap();
    assert_eq!(parts(product), (9465798888, 12));
    let product = Decimal::new(-15, 1).checked_mul(Decimal::new(20, 1)).unwrap();
    assert_eq!(parts(product), (-300, 2));
    let product = Decimal::new(i64::MAX, 20).checked_mul(Decimal::new(212, 2)).unwrap();
    assert_eq!(parts(product), (i64::MAX as i128 * 212, 22));
    let product = Decimal::new(i64::MAX, 14).checked_mul(Decimal::new(1 << 32, 14)).unwrap();
    assert_eq!(parts(product), ((i64::MAX as i128) << 32, 28));
}

#[test]
fn checked_mul_by_zero_is_plain_zero() {
    assert_eq!(parts(Decimal::new(0, 4).checked_mul(Decimal::new(7, 1)).unwrap()), (0, 0));
    assert_eq!(parts(Decimal::new(7, 1).checked_mul(Decimal::new(0, 4)).unwrap()), (0, 0));
}

#[test]
fn wide_operands_are_added_exactly() {
    // a mantissa of 81 bits, brought from scale 5 to scale 7
    let wide = Decimal::from_str("12089258196146291747.06176").unwrap();
    assert_eq!(parts(wide), (1208925819614629174706176, 5));
    let small = Decimal::new(3, 7);
    let sum = wide.checked_add(small).unwrap();
    assert_eq!(parts(sum), (120892581961462917470617603, 7));
    let sum = small.checked_add(wide).unwrap();
    assert_eq!(parts(sum), (120892581961462917470617603, 7));
    let difference = wide.checked_sub(small).unwrap();
    assert_eq!(parts(difference), (120892581961462917470617597, 7));
    let difference = small.checked_sub(wide).unwrap();
    assert_eq!(parts(difference), (-120892581961462917470617597, 7));
    let negative = Decimal::from_str("-12089258196146291747.06176").unwrap();
    assert_eq!(parts(negative.checked_add(small).unwrap()), (-120892581961462917470617597, 7));
    assert_eq!(parts(negative.checked_sub(small).unwrap()), (-120892581961462917470617603, 7));
    assert_eq!(parts(negative.checked_add(wide).unwrap()), (0, 5));
    assert_eq!(parts(wide.checked_sub(wide).unwrap()), (0, 5));
}

#[test]
fn operands_far_apart_in_scale_are_added_exactly() {
    let whole = Decimal::new(7, 0);
    let tiny = Decimal::new(1, 28);
    let sum = whole.checked_add(tiny).unwrap();
    assert_eq!(parts(sum), (70_000_000_000_000_000_000_000_000_001, 28));
    let difference = tiny.checked_sub(whole).unwrap();
    assert_eq!(parts(difference), (-69_999_999_999_999_999_999_999_999_999, 28));
    let large = Decimal::new(5_000_000_000, 0);
    let sum = large.checked_add(Decimal::new(1, 19)).unwrap();
    assert_eq!(parts(sum), (50_000_000_000_000_000_000_000_000_001, 19));
}

#[test]
fn sums_up_to_the_last_mantissa_are_exact() {
    let most = Decimal::from_str("79228162514264337593543950334").unwrap();
    let one = Decimal::new(1, 0);
    let sum = most.checked_add(one).unwrap();
    assert_eq!(parts(sum), (79228162514264337593543950335, 0));
    let least = Decimal::from_str("-79228162514264337593543950334").unwrap();
    let difference = least.checked_sub(one).unwrap();
    assert_eq!(parts(difference), (-79228162514264337593543950335, 0));
    let half = Decimal::from_str("3.9614081257132168796771975167").unwrap();
    let sum = half.checked_add(half).unwrap();
    assert_eq!(parts(sum), (79228162514264337593543950334, 28));
}

#[test]
fn wide_factors_are_multiplied_exactly() {
    let wide = Decimal::from_str("12089258196146291747.06176").unwrap();
    let product = wide.checked_mul(Decimal::new(-3, 2)).unwrap();
    assert_eq!(parts(product), (-3626777458843887524118528, 7));
    let product = Decimal::new(-3, 2).checked_mul(wide).unwrap();
    assert_eq!(parts(product), (-3626777458843887524118528, 7));
    let a = Decimal::from_str("1844674407370.9551617").unwrap();
    let b = Decimal::from_str("429496.7295").unwrap();
    let product = a.checked_mul(b).unwrap();
    assert_eq!(parts(product), (79228162495817593524129366015, 11));
    let c = Decimal::new(1099511627777, 9);
    let d = Decimal::new(-1125899906842627, 12);
    let product = c.checked_mul(d).unwrap();
    assert_eq!(parts(product), (-1237940039286509473340850179, 21));
    let most = Decimal::from_str("7922816251426433759354395033.5").unwrap();
    let product = most.checked_mul(Decimal::new(-1, 27)).unwrap();
    assert_eq!(parts(product), (-79228162514264337593543950335, 28));
}

#[test]
fn surplus_zeros_are_dropped_exactly() {
    let product = Decimal::new(25, 28).checked_mul(Decimal::new(212, 2)).unwrap();
    assert_eq!(parts(product), (53, 28));
    let product = Decimal::new(-25, 28).checked_mul(Decimal::new(212, 2)).unwrap();
    assert_eq!(parts(product), (-53, 28));
    let product = Decimal::new(4_000_000_000, 28).checked_mul(Decimal::new(2_500_000_000, 19)).unwrap();
    assert_eq!(parts(product), (1, 28));
    // factors of more than 32 bits
    let product = Decimal::new(25 << 40, 28).checked_mul(Decimal::new(212, 2)).unwrap();
    assert_eq!(parts(product), (53 << 40, 28));
    let product = Decimal::new(i64::MAX - 7, 27).checked_mul(Decimal::new(-212, 2)).unwrap();
    assert_eq!(parts(product), (-((i64::MAX as i128 - 7) / 10 * 212), 28));
    let product =
        Decimal::new(1_000_000_000_000_000, 20).checked_mul(Decimal::new(300_000, 20)).unwrap();
    assert_eq!(parts(product), (300_000_000, 28));
    let product = Decimal::new(6_000_000_000_000, 28)
        .checked_mul(Decimal::new(5_000_000_000_000_000, 28))
        .unwrap();
    assert_eq!(parts(product), (3, 28));
    // a factor of 96 bits
    let wide = Decimal::from_str("7922816251426433759354395.0000").unwrap();
    assert_eq!(parts(wide), (79228162514264337593543950000, 4));
    let product = wide.checked_mul(Decimal::new(-1, 28)).unwrap();
    assert_eq!(parts(product), (-7922816251426433759354395, 28));
}

#[test]
fn products_beyond_the_last_mantissa_are_rounded() {
    let a = Decimal::from_str("1844674407370.9551617").unwrap();
    let b = Decimal::from_str("429496.7297").unwrap();
    let product = a.checked_mul(b).unwrap();
    assert_eq!(parts(product), (7922816253271108167154846925, 10));
    let product = Decimal::new(15, 28).checked_mul(Decimal::new(5, 1)).unwrap();
    assert_eq!(parts(product), (8, 28));
}

#[test]
fn comparison_is_by_value() {
    assert!(Decimal::new(15, 1).gt(Decimal::new(149, 2)));
    assert!(!Decimal::new(15, 1).gt(Decimal::new(150, 2)));
    assert!(!Decimal::new(15, 1).lt(Decimal::new(150, 2)));
    assert!(Decimal::new(15, 1).lt(Decimal::new(151, 2)));
    assert!(Decimal::new(-2, 0).lt(Decimal::new(1, 28)));
    assert!(Decimal::new(1, 28).gt(Decimal::new(0, 0)));
    assert!(Decimal::new(-1, 28).lt(Decimal::new(0, 5)));
    assert!(!Decimal::new(0, 28).lt(Decimal::new(0, 0)));
    assert!(!Decimal::new(0, 28).gt(Decimal::new(0, 0)));
    let most = Decimal::from_str("79228162514264337593543950335").unwrap();
    assert!(most.gt(Decimal::new(i64::MAX, 28)));
    assert!(Decimal::new(i64::MAX, 28).lt(most));
    let least = Decimal::from_str("-79228162514264337593543950335").unwrap();
    assert!(least.lt(Decimal::new(i64::MIN, 28)));
    assert!(Decimal::new(-5, 1).gt(Decimal::new(-51, 2)));
}

#[test]
fn arithmetic_overflows_to_nothing() {
    let max = Decimal::from_str("79228162514264337593543950335").unwrap();
    assert!(max.checked_add(max).is_none());
    assert!(max.checked_mul(max).is_none());
    let min = Decimal::from_str("-79228162514264337593543950335").unwrap();
    assert!(max.checked_sub(min).is_none());
}

#[test]
fn ticker_texts_become_numbers() {
    let ticker = BookTicker {
        best_bid_price: "71.2833".to_string(),
        best_bid_qty: "0.8574".to_string(),
        best_ask_price: "n/a".to_string(),
        best_ask_qty: "0.9245".to_string(),
    };
    let quote = ticker.parse();
    assert_eq!(parts(quote.best_bid_price.unwrap()), (712833, 4));
    assert_eq!(parts(quote.best_bid_qty.unwrap()), (8574, 4));
    assert!(quote.best_ask_price.is_none());
    assert_eq!(parts(quote.best_ask_qty.unwrap()), (9245, 4));
}

#[test]
fn config_holds_pair_and_feed() {
    let config = Config::new("BTCUSDT".to_string(), "GVXRSBjFk6e6J3NbVPXohDJetcTjaeeuykUpbQF8UoMU".to_string());
    assert_eq!(config.binance_ticker, "BTCUSDT");
    assert_eq!(config.pyth_price_id, "GVXRSBjFk6e6J3NbVPXohDJetcTjaeeuykUpbQF8UoMU");
}
