use architect_api::symbology::execution_info::TickSize;
use architect_api::{Decimal, Dir};
use std::str::FromStr;

/// The decimal written `s`, with the mantissa and scale `rust_decimal` reads.
fn dec(s: &str) -> Decimal {
    let d = rust_decimal::Decimal::from_str(s).unwrap();
    Decimal::from_i128_with_scale(d.mantissa(), d.scale())
}

fn varying() -> TickSize {
    TickSize::Varying {
        thresholds: vec![
            (dec("0"), dec("0.01")),
            (dec("100"), dec("0.05")),
            (dec("500"), dec("0.10")),
        ],
    }
}

#[test]
fn test_tick_size_decrement() {
    let tick = TickSize::Simple(dec("0.01"));
    assert_eq!(tick.increment(dec("100.00"), -1), Some(dec("99.99")));

    let tick_varying = varying();

    // Test on boundary with negative increment
    assert_eq!(tick_varying.increment(dec("100.00"), -1), Some(dec("99.99")));
    assert_eq!(tick_varying.increment(dec("100.05"), -1), Some(dec("100")));
    assert_eq!(tick_varying.increment(dec("500.00"), -1), Some(dec("499.95")));
}

#[test]
fn test_tick_size_zero() {
    let tick = varying();

    assert_eq!(tick.increment(dec("100.00"), 0), Some(dec("100.00")));
    assert_eq!(tick.increment(dec("150.00"), 0), Some(dec("150.00")));
    assert_eq!(tick.increment(dec("50.00"), 0), Some(dec("50.00")));
}

#[test]
fn test_tick_size_boundary_behavior() {
    let tick = varying();

    // On boundary going up uses new tick size
    assert_eq!(tick.increment(dec("100.00"), 1), Some(dec("100.05")));
    assert_eq!(tick.increment(dec("500.00"), 1), Some(dec("500.10")));

    // On boundary going down uses previous tick size
    assert_eq!(tick.increment(dec("100.00"), -1), Some(dec("99.99")));
    assert_eq!(tick.increment(dec("500.00"), -1), Some(dec("499.95")));
}

#[test]
fn test_tick_size_multiple_crossings() {
    let tick = varying();

    // Cross multiple thresholds going up
    let result = tick.increment(dec("50"), 12000);
    assert_eq!(result, Some(dec("450")));

    // 1000 ticks from 600 to 500, one tick of 0.05 to 499.95, then 4099
    // ticks of 0.05 down to 295.00
    let result = tick.increment(dec("600"), -5100);
    assert_eq!(result, Some(dec("295.00")));
}

#[test]
fn test_round_up_simple() {
    let tick = TickSize::Simple(dec("0.01"));

    // Already on tick
    assert_eq!(tick.round_up(dec("100.00")), Some(dec("100.00")));

    // Between ticks - should round up
    assert_eq!(tick.round_up(dec("100.001")), Some(dec("100.01")));
    assert_eq!(tick.round_up(dec("100.005")), Some(dec("100.01")));
    assert_eq!(tick.round_up(dec("100.009")), Some(dec("100.01")));

    // Negative prices
    assert_eq!(tick.round_up(dec("-99.995")), Some(dec("-99.99")));
    assert_eq!(tick.round_up(dec("-100.00")), Some(dec("-100.00")));

    // Zero tick size
    let zero_tick = TickSize::Simple(dec("0"));
    assert_eq!(zero_tick.round_up(dec("100.123")), None);
}

#[test]
fn test_round_down_simple() {
    let tick = TickSize::Simple(dec("0.01"));

    // Already on tick
    assert_eq!(tick.round_down(dec("100.00")), Some(dec("100.00")));

    // Between ticks - should round down
    assert_eq!(tick.round_down(dec("100.001")), Some(dec("100.00")));
    assert_eq!(tick.round_down(dec("100.005")), Some(dec("100.00")));
    assert_eq!(tick.round_down(dec("100.009")), Some(dec("100.00")));

    // Negative prices
    assert_eq!(tick.round_down(dec("-99.995")), Some(dec("-100.00")));
    assert_eq!(tick.round_down(dec("-100.00")), Some(dec("-100.00")));

    // Zero tick size
    let zero_tick = TickSize::Simple(dec("0"));
    assert_eq!(zero_tick.round_down(dec("100.123")), None);
}

#[test]
fn test_round_up_varying() {
    let tick = varying();

    // In first threshold range
    assert_eq!(tick.round_up(dec("50.00")), Some(dec("50.00")));
    assert_eq!(tick.round_up(dec("50.001")), Some(dec("50.01")));
    assert_eq!(tick.round_up(dec("99.996")), Some(dec("100.00")));

    // In second threshold range
    assert_eq!(tick.round_up(dec("100.00")), Some(dec("100.00")));
    assert_eq!(tick.round_up(dec("100.01")), Some(dec("100.05")));
    assert_eq!(tick.round_up(dec("100.03")), Some(dec("100.05")));
    assert_eq!(tick.round_up(dec("100.05")), Some(dec("100.05")));

    // In third threshold range
    assert_eq!(tick.round_up(dec("500.00")), Some(dec("500.00")));
    assert_eq!(tick.round_up(dec("500.01")), Some(dec("500.10")));
    assert_eq!(tick.round_up(dec("500.05")), Some(dec("500.10")));
    assert_eq!(tick.round_up(dec("500.09")), Some(dec("500.10")));
    assert_eq!(tick.round_up(dec("500.10")), Some(dec("500.10")));
}

#[test]
fn test_round_down_varying() {
    let tick = varying();

    // In first threshold range
    assert_eq!(tick.round_down(dec("50.00")), Some(dec("50.00")));
    assert_eq!(tick.round_down(dec("50.001")), Some(dec("50.00")));
    assert_eq!(tick.round_down(dec("99.999")), Some(dec("99.99")));

    // In second threshold range
    assert_eq!(tick.round_down(dec("100.00")), Some(dec("100.00")));
    assert_eq!(tick.round_down(dec("100.01")), Some(dec("100.00")));
    assert_eq!(tick.round_down(dec("100.04")), Some(dec("100.00")));
    assert_eq!(tick.round_down(dec("100.05")), Some(dec("100.05")));
    assert_eq!(tick.round_down(dec("100.09")), Some(dec("100.05")));

    // In third threshold range
    assert_eq!(tick.round_down(dec("500.00")), Some(dec("500.00")));
    assert_eq!(tick.round_down(dec("500.01")), Some(dec("500.00")));
    assert_eq!(tick.round_down(dec("500.09")), Some(dec("500.00")));
    assert_eq!(tick.round_down(dec("500.10")), Some(dec("500.10")));
    assert_eq!(tick.round_down(dec("500.19")), Some(dec("500.10")));
}

#[test]
fn test_round_aggressive() {
    let tick = TickSize::Simple(dec("0.01"));

    // Buy direction - rounds up (more aggressive = higher price)
    assert_eq!(tick.round_aggressive(dec("100.001"), Dir::Buy), Some(dec("100.01")));
    assert_eq!(tick.round_aggressive(dec("100.00"), Dir::Buy), Some(dec("100.00")));

    // Sell direction - rounds down (more aggressive = lower price)
    assert_eq!(tick.round_aggressive(dec("100.009"), Dir::Sell), Some(dec("100.00")));
    assert_eq!(tick.round_aggressive(dec("100.00"), Dir::Sell), Some(dec("100.00")));
}

#[test]
fn test_round_passive() {
    let tick = TickSize::Simple(dec("0.01"));

    // Buy direction - rounds down (more passive = lower price)
    assert_eq!(tick.round_passive(dec("100.009"), Dir::Buy), Some(dec("100.00")));
    assert_eq!(tick.round_passive(dec("100.00"), Dir::Buy), Some(dec("100.00")));

    // Sell direction - rounds up (more passive = higher price)
    assert_eq!(tick.round_passive(dec("100.001"), Dir::Sell), Some(dec("100.01")));
    assert_eq!(tick.round_passive(dec("100.00"), Dir::Sell), Some(dec("100.00")));
}

#[test]
fn test_rounding_with_large_tick_sizes() {
    // Test with tick size of 0.25
    let tick = TickSize::Simple(dec("0.25"));

    assert_eq!(tick.round_up(dec("10.00")), Some(dec("10.00")));
    assert_eq!(tick.round_up(dec("10.10")), Some(dec("10.25")));
    assert_eq!(tick.round_up(dec("10.25")), Some(dec("10.25")));
    assert_eq!(tick.round_up(dec("10.30")), Some(dec("10.50")));

    assert_eq!(tick.round_down(dec("10.00")), Some(dec("10.00")));
    assert_eq!(tick.round_down(dec("10.10")), Some(dec("10.00")));
    assert_eq!(tick.round_down(dec("10.25")), Some(dec("10.25")));
    assert_eq!(tick.round_down(dec("10.30")), Some(dec("10.25")));
    assert_eq!(tick.round_down(dec("10.50")), Some(dec("10.50")));
    assert_eq!(tick.round_down(dec("10.60")), Some(dec("10.50")));
}

// Further cases for the tick rules.

#[test]
fn tick_increment_simple_exact() {
    let tick = TickSize::simple(dec("0.25"));
    assert_eq!(tick.increment(dec("10"), 3), Some(dec("10.75")));
    assert_eq!(tick.decrement(dec("10.75"), 3), Some(dec("10")));
    assert_eq!(tick.decrement(dec("10"), -2), Some(dec("10.5")));
}

#[test]
fn tick_increment_varying_below_first_threshold() {
    let tick = TickSize::Varying { thresholds: vec![(dec("10"), dec("1"))] };
    assert_eq!(tick.increment(dec("5"), 1), None);
    assert_eq!(tick.decrement(dec("10"), 1), None);
    let empty = TickSize::Varying { thresholds: vec![] };
    assert_eq!(empty.increment(dec("5"), 1), None);
    assert_eq!(empty.round_up(dec("5")), None);
}

#[test]
fn tick_distance_simple_and_varying() {
    let tick = TickSize::Simple(dec("0.01"));
    assert_eq!(tick.signed_tick_distance(dec("100"), dec("100.05")), Some(dec("5")));
    assert_eq!(tick.signed_tick_distance(dec("100.05"), dec("100")), Some(dec("-5")));
    assert_eq!(tick.signed_tick_distance(dec("7"), dec("7.00")), Some(dec("0")));
    let zero = TickSize::Simple(dec("0"));
    assert_eq!(zero.signed_tick_distance(dec("1"), dec("2")), None);
    let v = varying();
    // 99.99 -> 100 is one tick of 0.01, 100 -> 100.10 two ticks of 0.05
    assert_eq!(v.signed_tick_distance(dec("99.99"), dec("100.10")), Some(dec("3")));
    assert_eq!(v.signed_tick_distance(dec("100.10"), dec("99.99")), Some(dec("-3")));
    assert_eq!(v.try_signed_tick_distance(dec("99.99"), dec("100.10")), Some(Some(dec("3"))));
}

#[test]
fn decimal_equality_is_by_value() {
    assert_eq!(dec("1.0"), dec("1.00"));
    assert_ne!(dec("1.0"), dec("1.01"));
    assert_eq!(Decimal::from(3), dec("3.000"));
}

#[test]
fn tick_distance_counts_in_the_band_of_from() {
    let v = varying();
    // 200 lies in the band of 100: 100 ticks of 0.05 cover 200 -> 300.
    assert_eq!(v.signed_tick_distance(dec("200"), dec("300")), Some(dec("2000")));
    assert_eq!(v.signed_tick_distance(dec("300"), dec("200")), Some(dec("-2000")));
    // 450 -> 500 in ticks of 0.05, then 500 -> 600 in ticks of 0.10.
    assert_eq!(v.signed_tick_distance(dec("450"), dec("600")), Some(dec("2000")));
    assert_eq!(v.signed_tick_distance(dec("600"), dec("450")), Some(dec("-2000")));
    // Both ends in the last band.
    assert_eq!(v.signed_tick_distance(dec("600"), dec("601")), Some(dec("10")));
}

#[test]
fn tick_moves_near_the_largest_decimal() {
    let big = dec("79228162514264337593543950300");
    let tick = TickSize::Simple(dec("1"));
    assert_eq!(tick.increment(big, 0), Some(big));
    assert_eq!(tick.decrement(big, 0), Some(big));
    assert_eq!(tick.increment(big, -100), Some(dec("79228162514264337593543950200")));
    assert_eq!(tick.decrement(big, 100), Some(dec("79228162514264337593543950200")));
    assert_eq!(TickSize::Simple(dec("0.01")).increment(big, 0), Some(big));
}

#[test]
fn varying_ticks_up_then_down_return() {
    let v = varying();
    // 99.98 -> 100.00 in ticks of 0.01, then eight ticks of 0.05.
    let up = v.increment(dec("99.98"), 10).unwrap();
    assert_eq!(up, dec("100.40"));
    assert_eq!(v.decrement(up, 10), Some(dec("99.98")));
    // Across the threshold at 500 and back.
    let up = v.increment(dec("499.90"), 5).unwrap();
    assert_eq!(up, dec("500.30"));
    assert_eq!(v.increment(up, -5), Some(dec("499.90")));
}

#[test]
fn signed_tick_distance_of_simple_ticks_both_ways() {
    let t = TickSize::Simple(dec("0.25"));
    assert_eq!(t.signed_tick_distance(dec("3"), dec("1")), Some(dec("-8")));
    assert_eq!(t.signed_tick_distance(dec("1"), dec("3")), Some(dec("8")));
    assert_eq!(t.signed_tick_distance(dec("1"), dec("1")), Some(dec("0")));
    assert_eq!(TickSize::Simple(dec("0")).signed_tick_distance(dec("1"), dec("3")), None);
}
