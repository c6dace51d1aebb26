use trading_system::bar::Bar;
use trading_system::data::{bar_from_record, parse_timestamp, sort_bars};
use trading_system::errors::DataError;
use trading_system::fixed::Dec;
use trading_system::fmt::{dec_to_string, dec_to_string_2dp, i64_to_string, u64_to_string};

#[test]
fn test_parse_timestamp() {
    // The formats the original CSV source recognizes.
    assert!(parse_timestamp("2024-01-15").is_ok());
    assert!(parse_timestamp("2024-01-15 10:30:00").is_ok());
    // Unix ms
    assert!(parse_timestamp("1705312800000").is_ok());
    // Unix sec
    assert!(parse_timestamp("1705312800").is_ok());
}

#[test]
fn test_parse_timestamp_exact_values() {
    // Midnight UTC of 2024-01-15 in epoch milliseconds.
    assert_eq!(parse_timestamp("2024-01-15").unwrap(), 1705276800000);
    assert_eq!(
        parse_timestamp("2024-01-15 10:30:00").unwrap(),
        1705314600000
    );
    assert_eq!(parse_timestamp("2024/01/15").unwrap(), 1705276800000);
    assert_eq!(parse_timestamp("01/15/2024").unwrap(), 1705276800000);
    assert_eq!(parse_timestamp("15-01-2024").unwrap(), 1705276800000);
    // Ten digits read as seconds, more as milliseconds.
    assert_eq!(parse_timestamp("1705312800").unwrap(), 1705312800000);
    assert_eq!(parse_timestamp("1705312800000").unwrap(), 1705312800000);
}

#[test]
fn test_parse_timestamp_rejects_garbage() {
    match parse_timestamp("not a date") {
        Err(DataError::ParseError(text)) => assert_eq!(text, "not a date"),
        other => panic!("expected parse error, got {:?}", other),
    }
}

#[test]
fn test_bar_from_record_fields() {
    let b = bar_from_record(
        "2024-01-15",
        (10.0f64).to_bits(),
        (12.0f64).to_bits(),
        (9.0f64).to_bits(),
        (11.0f64).to_bits(),
        (500.0f64).to_bits(),
    )
    .unwrap();
    assert_eq!(b.timestamp, 1705276800000);
    assert_eq!(b.close, (11.0f64).to_bits());
    assert_eq!(b.vwap, None);
}

#[test]
fn test_sort_bars_by_timestamp() {
    let mk = |ts: i64| Bar::new(ts, 0, 0, 0, 0, 0);
    let mut bars = vec![mk(5), mk(1), mk(3), mk(2), mk(4)];
    sort_bars(&mut bars);
    let stamps: Vec<i64> = bars.iter().map(|b| b.timestamp).collect();
    assert_eq!(stamps, vec![1, 2, 3, 4, 5]);
}

#[test]
fn test_number_rendering() {
    assert_eq!(u64_to_string(0), "0");
    assert_eq!(u64_to_string(12345), "12345");
    assert_eq!(i64_to_string(-42), "-42");
    assert_eq!(dec_to_string(&Dec::from_micro(1_500_000)), "1.500000");
    assert_eq!(dec_to_string(&Dec::from_micro(-2_030_000)), "-2.030000");
    assert_eq!(dec_to_string_2dp(&Dec::from_int(10)), "10.00");
    assert_eq!(dec_to_string_2dp(&Dec::from_micro(104_500_000)), "104.50");
}

#[test]
fn test_dec_arithmetic_exact() {
    // Fixed-point arithmetic is exact at six fractional digits.
    let a = Dec::from_micro(101_000_000);
    let slip = Dec::from_micro(50_000).div(&Dec::hundred());
    let fill = a.mul(&Dec::one().add(&slip));
    assert_eq!(fill, Dec::from_micro(101_050_500));

    let third = Dec::from_int(1).div(&Dec::from_int(3));
    assert_eq!(third, Dec::from_micro(333_333));
    assert_eq!(Dec::from_micro(-1_500_000).floor(), Dec::from_int(-2));
    assert_eq!(Dec::from_micro(1_500_000).floor(), Dec::from_int(1));
}

#[test]
fn test_dec_from_f64_bits_decoding() {
    // The integer decoder reads IEEE-754 bit patterns exactly.
    assert_eq!(
        Dec::from_f64_bits((101.0505f64).to_bits()).unwrap().micro(),
        101_050_499
    );
    assert_eq!(
        Dec::from_f64_bits((0.5f64).to_bits()).unwrap().micro(),
        500_000
    );
    assert_eq!(
        Dec::from_f64_bits((-2.25f64).to_bits()).unwrap().micro(),
        -2_250_000
    );
    assert_eq!(Dec::from_f64_bits((0.0f64).to_bits()).unwrap().micro(), 0);
    assert!(Dec::from_f64_bits(f64::NAN.to_bits()).is_none());
    assert!(Dec::from_f64_bits(f64::INFINITY.to_bits()).is_none());
}
