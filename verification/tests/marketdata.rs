use architect_api::external;
use architect_api::ids::MarketId;
use architect_api::error::Error;
use architect_api::marketdata::candle_width::CandleWidth;
use architect_api::marketdata::{Candle, L1BookSnapshot, TickerValues};
use architect_api::numfmt::{format_i32, format_u64, parse_i32, parse_u64};
use architect_api::time::UtcTimestamp;
use architect_api::typed_message::MaybeSplit;
use architect_api::Decimal;
use std::str::FromStr;

fn dec(s: &str) -> Decimal {
    let d = rust_decimal::Decimal::from_str(s).unwrap();
    Decimal::from_i128_with_scale(d.mantissa(), d.scale())
}

#[test]
fn candle_widths() {
    let all = CandleWidth::all();
    assert_eq!(all.len(), 8);
    for w in &all {
        assert_eq!(CandleWidth::from_str(w.as_str()), Ok(*w));
    }
    assert_eq!(CandleWidth::FifteenMinute.as_str(), "15m");
    assert_eq!(CandleWidth::OneDay.as_seconds(), 86400);
    assert_eq!(CandleWidth::from_str("2h"), Err(Error::InvalidCandleWidth("2h".to_string())));
}

#[test]
fn empty_candle() {
    let c = Candle::default(UtcTimestamp { secs: 1700000000, nanos: 5 }, CandleWidth::OneMinute, "ES".to_string());
    assert_eq!(c.timestamp, 1700000000);
    assert_eq!(c.timestamp_ns, 5);
    assert_eq!(c.symbol, "ES");
    assert!(c.open.is_none() && c.ask_low.is_none());
    assert_eq!(c.volume, dec("0"));
}

fn empty_ticker() -> TickerValues {
    TickerValues {
        bid_price: None, bid_size: None, ask_price: None, ask_size: None, last_price: None,
        last_size: None, session_open: None, session_low: None, session_high: None,
        session_volume: None, open_24h: None, low_24h: None, high_24h: None, volume_24h: None,
        volume_30d: None, open_interest: None, last_settlement_price: None,
        last_settlement_date: None, mark_price: None, index_price: None, funding_rate: None,
        next_funding_time: None, market_cap: None, price_to_earnings: None, eps_adj: None,
        shares_outstanding_weighted_adj: None, dividend: None, dividend_yield: None,
        dividend_ex_date: None,
    }
}

#[test]
fn ticker_prices() {
    let mut t = empty_ticker();
    assert!(t.is_none());
    assert_eq!(t.last_or_mid_price(), None);
    t.bid_price = Some(dec("100"));
    assert_eq!(t.last_or_mid_price(), None);
    t.ask_price = Some(dec("101"));
    assert_eq!(t.last_or_mid_price(), Some(dec("100.5")));
    t.last_price = Some(dec("99"));
    assert_eq!(t.last_or_mid_price(), Some(dec("99")));
    t.mark_price = Some(dec("1"));
    assert!(!t.is_none());
}

#[test]
fn best_bid_and_offer() {
    let s = L1BookSnapshot {
        symbol: "X".to_string(),
        timestamp: 0,
        timestamp_ns: 0,
        recv_time: None,
        recv_time_ns: None,
        best_bid: Some((dec("1.5"), dec("10"))),
        best_ask: None,
    };
    let b = s.bbo();
    assert_eq!(b.buy, Some(dec("1.5")));
    assert_eq!(b.sell, None);
}

#[test]
fn integer_text() {
    assert_eq!(parse_u64("18446744073709551615"), Some(u64::MAX));
    assert_eq!(parse_u64("18446744073709551616"), None);
    assert_eq!(parse_u64("+0012"), Some(12));
    assert_eq!(parse_u64(""), None);
    assert_eq!(parse_u64("+"), None);
    assert_eq!(parse_i32("-2147483648"), Some(i32::MIN));
    assert_eq!(parse_i32("2147483648"), None);
    assert_eq!(parse_i32("-"), None);
    assert_eq!(parse_i32("1a"), None);
    assert_eq!(format_u64(0), "0");
    assert_eq!(format_u64(u64::MAX), u64::MAX.to_string());
    assert_eq!(format_i32(i32::MIN), i32::MIN.to_string());
    assert_eq!(format_i32(-45), "-45");
}

#[test]
fn split_parts() {
    assert_eq!(MaybeSplit::<u8, &str>::Just("b").parts(), (None, "b"));
    assert_eq!(MaybeSplit::<u8, &str>::Split(1, "b").parts(), (Some(1), "b"));
}

#[test]
fn external_snapshots_and_trades() {
    let s = external::marketdata::L1BookSnapshot::new(
        Some(MarketId(3)),
        None,
        UtcTimestamp { secs: 10, nanos: 20 },
        Some(UtcTimestamp { secs: 7, nanos: 99 }),
        Some(4),
        None,
        Some((dec("2"), dec("1"))),
    );
    assert_eq!(s.timestamp, 10);
    assert_eq!(s.timestamp_ns, 20);
    assert_eq!(s.epoch, Some(7));
    assert_eq!(s.seqno, Some(4));
    let t = external::marketdata::Trade::new(None, Some("X".to_string()), dec("1.5"), dec("2"), None, UtcTimestamp { secs: 3, nanos: 4 });
    assert_eq!(t.timestamp, 3);
    assert_eq!(t.price, dec("1.5"));
    let r = external::marketdata::SubscribeL1BookSnapshotsRequest::from(Some(MarketId(9)));
    assert_eq!(r.market_ids, Some(vec![MarketId(9)]));
    let r = external::marketdata::SubscribeL1BookSnapshotsRequest::from(None::<MarketId>);
    assert_eq!(r.market_ids, None);
}
