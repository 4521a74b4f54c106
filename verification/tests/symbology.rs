use architect_api::symbology::product::SpreadLeg;
use architect_api::symbology::event_contract_series::{EventContractSeriesInstance, Outcome};
use architect_api::symbology::protocol::PruneExpiredSymbolsRequest;
use architect_api::error::Error;
use architect_api::symbology::cficode::CfiCode;
use architect_api::symbology::event_contract_series::EventContractSeries;
use architect_api::symbology::options_series::{
    OptionsExerciseType, OptionsSeries, OptionsSeriesInfo, OptionsSeriesInstance, PutOrCall,
};
use architect_api::symbology::product::{
    DerivativeKind, PriceDisplayFormat, Product, ProductInfo, ProductType,
};
use architect_api::symbology::product_catalog::ProductCatalogInfo;
use architect_api::symbology::tradable_product::TradableProduct;
use architect_api::symbology::venue::{ExecutionVenue, MarketdataVenue};
use architect_api::symbology_v2;
use architect_api::time::{NaiveDate, TimeOfDay, UtcTimestamp};
use architect_api::Decimal;
use std::str::FromStr;

fn dec(s: &str) -> Decimal {
    let d = rust_decimal::Decimal::from_str(s).unwrap();
    Decimal::from_i128_with_scale(d.mantissa(), d.scale())
}

fn date(year: i32, month: u32, day: u32) -> NaiveDate {
    NaiveDate { year, month, day }
}

#[test]
fn product_names() {
    assert_eq!(Product::fiat("USD").unwrap().0, "USD");
    assert_eq!(Product::fiat("US D"), Err(Error::Whitespace));
    assert_eq!(Product::fiat("US/D"), Err(Error::ForwardSlash));
    assert_eq!(Product::crypto("BTC").unwrap().0, "BTC Crypto");
    assert_eq!(Product::commodity("GOLD").unwrap().0, "GOLD Commodity");
    assert_eq!(Product::index("SPX", Some("cboe")).unwrap().0, "SPX CBOE Index");
    assert_eq!(Product::equity("AAPL", "US").unwrap().0, "AAPL US Equity");
    assert_eq!(Product::perpetual("BTC-USD", Some("binance")).unwrap().0, "BTC-USD BINANCE Perpetual");
    assert_eq!(Product::perpetual("BTC", Some("")), Err(Error::EmptyVenueDiscriminant));
    assert_eq!(Product::perpetual("BTC", Some("A/B")), Err(Error::ForwardSlash));
    assert_eq!(Product::crypto("A/B"), Err(Error::ForwardSlash));
    assert_eq!(Product::from_str("anything goes").unwrap().0, "anything goes");
    assert_eq!(Product::from_str("a/b"), Err(Error::ForwardSlash));
}

#[test]
fn dated_product_names() {
    let p = Product::future("ES", date(2024, 12, 20), Some("cme")).unwrap();
    assert_eq!(p.0, "ES 20241220 CME Future");
    let p = Product::future("ZZ", date(999, 1, 2), None).unwrap();
    assert_eq!(p.0, "ZZ 09990102 Future");
    let p = Product::option("AAPL US", date(2024, 12, 27), dec("300.00"), PutOrCall::Call, None)
        .unwrap();
    assert_eq!(p.0, "AAPL US 20241227 300 C Option");
    let p = Product::option("SPX", date(2025, 3, 21), dec("4500.50"), PutOrCall::Put, Some("cboe"))
        .unwrap();
    assert_eq!(p.0, "SPX 20250321 4500.5 P CBOE Option");
    let ratios = vec![dec("1"), dec("2.5")];
    let p = Product::futures_spread(
        &["ESZ4", "ESH5"],
        Some(ratios.as_slice()),
        date(2024, 12, 20),
        Some("cme"),
    )
    .unwrap();
    assert_eq!(p.0, "ESZ4-ESH5 1:2.5 20241220 CME Futures Spread");
    let p = Product::futures_spread(&["A", "B", "C"], None, date(2024, 1, 5), None).unwrap();
    assert_eq!(p.0, "A-B-C 20240105 Futures Spread");
}

#[test]
fn price_display_format_text() {
    let f = PriceDisplayFormat::CmeFractional { main_fraction: 32, sub_fraction: 4, tick_decimals: 1 };
    assert_eq!(f.to_string(), "CME_FRACTIONAL(32,4,1)");
    assert_eq!(PriceDisplayFormat::from_str("CME_FRACTIONAL(32,4,1)"), Ok(f));
    assert_eq!(PriceDisplayFormat::from_str("CME_FRACTIONAL(32,4,1)))"), Ok(f));
    let g = PriceDisplayFormat::CmeFractional { main_fraction: -7, sub_fraction: 0, tick_decimals: 2147483647 };
    assert_eq!(PriceDisplayFormat::from_str(&g.to_string()), Ok(g));
    assert_eq!(f.main_fraction(), Some(32));
    assert_eq!(f.tick_decimals(), Some(1));
    assert_eq!(PriceDisplayFormat::from_str("FRACTIONAL(1,2,3)"), Err(Error::InvalidPriceDisplayFormat));
    assert_eq!(PriceDisplayFormat::from_str("CME_FRACTIONAL(1,2)"), Err(Error::InvalidCmeFractional));
    assert_eq!(
        PriceDisplayFormat::from_str("CME_FRACTIONAL(1,x,3)"),
        Err(Error::InvalidInteger("x".to_string()))
    );
    assert_eq!(
        PriceDisplayFormat::from_str("CME_FRACTIONAL(1,2,2147483648)"),
        Err(Error::InvalidInteger("2147483648".to_string()))
    );
}

#[test]
fn tradable_product_parts() {
    let btc = Product::crypto("BTC").unwrap();
    let usd = Product::fiat("USD").unwrap();
    let t = TradableProduct::new(&btc, Some(&usd)).unwrap();
    assert_eq!(t.0, "BTC Crypto/USD");
    assert_eq!(t.base().0, "BTC Crypto");
    assert_eq!(t.quote().unwrap().0, "USD");
    let alone = TradableProduct::new(&btc, None).unwrap();
    assert_eq!(alone.0, "BTC Crypto");
    assert_eq!(alone.base().0, "BTC Crypto");
    assert!(alone.quote().is_none());
    let slashed = Product("A/B".to_string());
    assert_eq!(TradableProduct::new(&slashed, None), Err(Error::SlashInBase));
    assert_eq!(TradableProduct::new(&btc, Some(&slashed)), Err(Error::SlashInQuote));
    assert_eq!(TradableProduct::from_str("A/B/C"), Err(Error::TooManySlashes));
    assert_eq!(TradableProduct::from_str("A/B").unwrap().0, "A/B");
}

#[test]
fn v2_products() {
    let btc = symbology_v2::product::Product::crypto("BTC").unwrap();
    assert_eq!(btc.as_str(), "BTC Crypto");
    let usd = symbology_v2::product::Product::fiat("USD").unwrap();
    let t = symbology_v2::tradable_product::TradableProduct::new(&btc, Some(&usd)).unwrap();
    assert_eq!(t.base().as_str(), "BTC Crypto");
    assert_eq!(t.quote().unwrap().as_str(), "USD");
    let p = symbology_v2::product::Product::index("NDX", Some("nasdaq")).unwrap();
    assert_eq!(p.as_str(), "NDX NASDAQ Index");
    let p = symbology_v2::product::Product::perpetual("ETH", None).unwrap();
    assert_eq!(p.as_str(), "ETH Perpetual");
}

#[test]
fn venues_compare_by_name() {
    let m = MarketdataVenue::new("CME".to_string());
    let e = ExecutionVenue::new("CME".to_string());
    let other = ExecutionVenue::new("CBOE".to_string());
    assert!(m == e);
    assert!(e == m);
    assert!(m != other);
}

#[test]
fn event_contract_series_names() {
    let s = EventContractSeries::new("ECES 20241227", Some("cme")).unwrap();
    assert_eq!(s, EventContractSeries::from_str("ECES 20241227 CME Event Contract Series").unwrap());
    assert_eq!(EventContractSeries::new("A/B", None), Err(Error::ForwardSlash));
    assert_eq!(EventContractSeries::new("X", Some("")), Err(Error::EmptyVenueDiscriminant));
}

#[test]
fn put_or_call_letters() {
    assert_eq!(PutOrCall::from_str("P"), Ok(PutOrCall::Put));
    assert_eq!(PutOrCall::from_str("C"), Ok(PutOrCall::Call));
    assert_eq!(PutOrCall::from_str("X"), Err(Error::InvalidPutOrCall("X".to_string())));
    assert_eq!(PutOrCall::Put.to_string(), "P");
    assert_eq!(PutOrCall::Call.to_string(), "C");
}

fn aapl_series(venue: Option<&str>, name: &str) -> OptionsSeriesInfo {
    OptionsSeriesInfo {
        options_series: OptionsSeries::from_str(name).unwrap(),
        venue_discriminant: venue.map(|v| v.to_string()),
        quote_symbol: Product::fiat("USD").unwrap(),
        underlying: Product::equity("AAPL", "US").unwrap(),
        multiplier: dec("100"),
        expiration_time_of_day: TimeOfDay { secs: 16 * 3600, nanos: 0 },
        expiration_time_zone: "America/New_York".to_string(),
        strikes_by_expiration: vec![],
        derivative_kind: DerivativeKind::Linear,
        exercise_type: OptionsExerciseType::American,
        is_cash_settled: false,
    }
}

#[test]
fn options_series_instances() {
    let info = aapl_series(None, "AAPL US Options");
    let i = info.parse_instance("AAPL US 20241227 300 C Option").unwrap();
    // 2024-12-27 16:00 in New York is 21:00 UTC.
    assert_eq!(i.expiration, UtcTimestamp { secs: 1735333200, nanos: 0 });
    assert_eq!(i.strike, dec("300"));
    assert_eq!(i.put_or_call, PutOrCall::Call);
    assert_eq!(info.get_product(&i).unwrap().0, "AAPL US 20241227 300 C Option");
    assert_eq!(
        info.get_tradable_product(&i).unwrap().0,
        "AAPL US 20241227 300 C Option/USD"
    );
    assert_eq!(info.parse_instance("AAPL US 2024122 300 C Option").err(), Some(Error::SymbolFormat));
    assert_eq!(info.parse_instance("AAPL US 20241332 300 C Option").err(), Some(Error::InvalidDate));
    assert_eq!(info.parse_instance("AAPL US 20241227 3.0.0 C Option").err(), Some(Error::InvalidDecimal));
    let venued = aapl_series(Some("CBOE"), "AAPL US CBOE Options");
    let i = venued.parse_instance("AAPL US 20241227 12.5 P CBOE Option").unwrap();
    assert_eq!(i.put_or_call, PutOrCall::Put);
    assert_eq!(venued.get_product(&i).unwrap().0, "AAPL US 20241227 12.5 P CBOE Option");
    assert_eq!(venued.parse_instance("AAPL US 20241227 12.5 P Option").err(), Some(Error::MissingVenueDiscriminant));
    assert_eq!(venued.parse_instance("AAPL US 20241227 12.5 P NYSE Option").err(), Some(Error::VenueDiscriminantMismatch));
    let bad = aapl_series(None, "AAPL US Calls");
    let inst = OptionsSeriesInstance {
        expiration: UtcTimestamp { secs: 0, nanos: 0 },
        strike: dec("1"),
        put_or_call: PutOrCall::Put,
    };
    assert_eq!(bad.get_product(&inst), Err(Error::InvalidOptionsSeriesName));
}

#[test]
fn product_info_queries() {
    let fut = ProductInfo {
        product_type: ProductType::Future {
            series: Some("ES".to_string()),
            underlying: Some(Product::index("SPX", None).unwrap()),
            multiplier: dec("50"),
            expiration: UtcTimestamp { secs: 1000, nanos: 0 },
            derivative_kind: DerivativeKind::Linear,
            first_notice_date: Some(NaiveDate { year: 2024, month: 12, day: 1 }),
        },
        primary_venue: None,
        price_display_format: None,
    };
    assert_eq!(fut.series(), Some("ES"));
    assert_eq!(fut.multiplier(), Some(dec("50")));
    assert_eq!(fut.underlying().unwrap().0, "SPX Index");
    assert_eq!(fut.expiration(), Some(UtcTimestamp { secs: 1000, nanos: 0 }));
    assert!(fut.is_expired(UtcTimestamp { secs: 1000, nanos: 0 }));
    assert!(!fut.is_expired(UtcTimestamp { secs: 999, nanos: 999_999_999 }));
    assert_eq!(fut.derivative_kind(), Some(DerivativeKind::Linear));
    assert_eq!(fut.first_notice_date(), Some(NaiveDate { year: 2024, month: 12, day: 1 }));
    assert_eq!(fut.easy_to_borrow(), None);
    let eq = ProductInfo {
        product_type: ProductType::Equity { easy_to_borrow: Some(true) },
        primary_venue: None,
        price_display_format: None,
    };
    assert_eq!(eq.easy_to_borrow(), Some(true));
    assert_eq!(eq.expiration(), None);
    assert!(!eq.is_expired(UtcTimestamp { secs: i64::MAX, nanos: 0 }));
    assert_eq!(eq.multiplier(), None);
}

#[test]
fn catalog_root() {
    let info = ProductCatalogInfo {
        last_updated: None,
        as_of_date: None,
        exchange: ExecutionVenue::new("CME".to_string()),
        exchange_product: "ES Futures".to_string(),
        quote_currency: None,
        multiplier: None,
        category: Some("Equity".to_string()),
        sub_category: None,
        short_description: None,
        long_description: None,
        schedule_description: None,
        settle_method: None,
        price_display_format: None,
        market_cap: None,
        price_to_earnings: None,
        eps_adj: None,
        shared_outstanding_weighted_adj: None,
        dividend: None,
        dividend_yield: None,
        info_url: None,
        cqg_contract_symbol: None,
    };
    assert_eq!(info.product_root(), Ok("ES"));
    assert_eq!(info.sector(), Some("Equity"));
    let single = ProductCatalogInfo { exchange_product: "ES".to_string(), ..info };
    assert_eq!(single.product_root(), Err(Error::NoRoot("ES".to_string())));
}

#[test]
fn cfi_code_round_trip() {
    let code = CfiCode::from("ESVUFR");
    let n: u64 = code.into();
    assert_eq!(CfiCode::from(n), code);
    assert_eq!(CfiCode::default(), CfiCode::from("XXXXXX"));
}

#[test]
fn spread_legs() {
    let leg = SpreadLeg { product: Product::from_str("ESZ4 CME Future").unwrap(), quantity: dec("1") };
    assert_eq!(leg.to_string(), "+1 ESZ4 CME Future");
    let leg = SpreadLeg { product: Product::from_str("ESH5 CME Future").unwrap(), quantity: dec("-2") };
    assert_eq!(leg.to_string(), "-2 ESH5 CME Future");
    let back = SpreadLeg::from_str("-2 ESH5 CME Future").unwrap();
    assert_eq!(back.quantity, dec("-2"));
    assert_eq!(back.product.0, "ESH5 CME Future");
    assert!(matches!(SpreadLeg::from_str("nospace"), Err(Error::InvalidSpreadLeg)));
    assert!(matches!(SpreadLeg::from_str("x ESH5"), Err(Error::InvalidDecimal)));
    assert!(matches!(SpreadLeg::from_str("1 A/B"), Err(Error::ForwardSlash)));
}

#[test]
fn event_contract_instance_expiration() {
    let e = EventContractSeriesInstance::Enumerated { outcome: Outcome { name: "Yes".to_string() } };
    assert_eq!(e.expiration(), None);
    let t = UtcTimestamp { secs: 5, nanos: 1 };
    let o = EventContractSeriesInstance::OptionLike { strike: dec("10"), expiration: Some(t) };
    assert_eq!(o.expiration(), Some(t));
}

#[test]
fn prune_request_cutoff() {
    let r = PruneExpiredSymbolsRequest::new(Some(UtcTimestamp { secs: 1700000000, nanos: 9 }));
    assert_eq!(r.cutoff, Some(1700000000));
    assert_eq!(PruneExpiredSymbolsRequest::new(None).cutoff, None);
}

#[test]
fn fiat_refuses_every_kind_of_whitespace() {
    for c in ['\t', '\r', ' ', '\u{85}', '\u{a0}', '\u{1680}', '\u{2009}', '\u{2028}', '\u{3000}'] {
        let name = format!("US{}D", c);
        assert!(matches!(Product::fiat(&name), Err(Error::Whitespace)));
    }
    assert!(Product::fiat("US\u{200b}D").is_ok());
    assert!(Product::fiat("USD").is_ok());
}

#[test]
fn option_product_reads_back_as_its_instance() {
    let info = aapl_series(None, "AAPL US Options");
    // 2025-06-20 16:00 in New York (daylight time) is 20:00 UTC.
    let inst = OptionsSeriesInstance {
        expiration: UtcTimestamp { secs: 1750449600, nanos: 0 },
        strike: dec("187.50"),
        put_or_call: PutOrCall::Put,
    };
    let product = info.get_product(&inst).unwrap();
    assert_eq!(product.0, "AAPL US 20250620 187.5 P Option");
    let back = info.parse_instance(&product.0).unwrap();
    assert_eq!(back.expiration, inst.expiration);
    assert_eq!(back.strike, dec("187.5"));
    assert_eq!(back.put_or_call, inst.put_or_call);
}

#[test]
fn venues_of_one_kind_compare_by_name() {
    assert!(MarketdataVenue::new("COINBASE".to_string()) == MarketdataVenue::new("COINBASE".to_string()));
    assert!(MarketdataVenue::new("COINBASE".to_string()) != MarketdataVenue::new("KRAKEN".to_string()));
    assert!(ExecutionVenue::new("CME".to_string()) == ExecutionVenue::new("CME".to_string()));
    assert!(ExecutionVenue::new("CME".to_string()) != ExecutionVenue::new("CBOE".to_string()));
    let a = symbology_v2::venue::MarketdataVenue::new("DATABENTO".to_string());
    assert!(a == symbology_v2::venue::MarketdataVenue::new("DATABENTO".to_string()));
    assert!(a != symbology_v2::venue::MarketdataVenue::new("XIGNITE".to_string()));
}

#[test]
fn event_contract_series_name_is_readable() {
    let s = EventContractSeries::new("ECES 20241227", None).unwrap();
    assert_eq!(s.as_str(), "ECES 20241227 Event Contract Series");
    assert_eq!(s.to_string(), "ECES 20241227 Event Contract Series");
}

#[test]
fn option_names_write_strikes_as_rust_decimal_does() {
    let p = Product::option("X", date(1969, 12, 31), dec("0.050"), PutOrCall::Call, None).unwrap();
    assert_eq!(p.0, "X 19691231 0.05 C Option");
    let p = Product::option("X", date(2000, 2, 29), dec("1200"), PutOrCall::Put, None).unwrap();
    assert_eq!(p.0, "X 20000229 1200 P Option");
}

#[test]
fn options_expiring_before_1970_read_their_utc_date() {
    let info = aapl_series(None, "AAPL US Options");
    // 1969-12-31 21:00 UTC.
    let inst = OptionsSeriesInstance {
        expiration: UtcTimestamp { secs: -10800, nanos: 0 },
        strike: dec("10"),
        put_or_call: PutOrCall::Call,
    };
    assert_eq!(info.get_product(&inst).unwrap().0, "AAPL US 19691231 10 C Option");
}
