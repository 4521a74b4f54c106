//! Marketdata: book snapshots, candles, trades and tickers, and the
//! requests that ask for them.
pub mod candle_width;
pub mod options_marketdata;
pub mod snapshots;

use crate::decimal::{
    zero,
    checked_quotient, decimal_add, decimal_checked_div, fits, lemma_pow10_pos, lemma_spec_add, scale_max, spec_add,
    Decimal,
};
use crate::dir::{Dir, DirPair};
use crate::symbology::venue::MarketdataVenue;
use crate::time::{NaiveDate, UtcTimestamp};
use candle_width::CandleWidth;
use vstd::prelude::*;

verus! {

#[derive(Debug, Clone)]
pub struct L1BookSnapshotRequest {
    pub venue: Option<MarketdataVenue>,
    pub symbol: String,
}

#[derive(Debug, Clone)]
pub struct L1BookSnapshotsRequest {
    pub venue: Option<MarketdataVenue>,
    pub symbols: Option<Vec<String>>,
}

#[derive(Debug, Clone)]
pub struct SubscribeL1BookSnapshotsRequest {
    pub venue: Option<MarketdataVenue>,
    /// If None, subscribe from all symbols on the feed
    pub symbols: Option<Vec<String>>,
}

/// The best bid and ask of a book, each a price and a size.
#[derive(Debug, Clone)]
pub struct L1BookSnapshot {
    pub symbol: String,
    pub timestamp: i64,
    pub timestamp_ns: u32,
    pub recv_time: Option<i64>,
    pub recv_time_ns: Option<u32>,
    pub best_bid: Option<(Decimal, Decimal)>,
    pub best_ask: Option<(Decimal, Decimal)>,
}

/// The price of an optional (price, size) level.
pub open spec fn level_price(level: Option<(Decimal, Decimal)>) -> Option<Decimal> {
    match level {
        Some(l) => Some(l.0),
        None => None,
    }
}

impl L1BookSnapshot {
    /// The best bid and ask prices.
    pub fn bbo(&self) -> (r: DirPair<Option<Decimal>>)
        ensures
            r.buy == level_price(self.best_bid),
            r.sell == level_price(self.best_ask),
    {
        let buy = match &self.best_bid {
            Some(level) => Some(level.0),
            None => None,
        };
        let sell = match &self.best_ask {
            Some(level) => Some(level.0),
            None => None,
        };
        DirPair { buy, sell }
    }
}

#[derive(Debug, Clone)]
pub struct L2BookSnapshotRequest {
    pub venue: Option<MarketdataVenue>,
    pub symbol: String,
}

#[derive(Debug, Clone)]
pub struct SubscribeL2BookUpdatesRequest {
    pub venue: Option<MarketdataVenue>,
    pub symbol: String,
}

/// Subscribe to candles for a single market.
#[derive(Debug, Clone)]
pub struct SubscribeCandlesRequest {
    pub venue: Option<MarketdataVenue>,
    pub symbol: String,
    /// If None, subscribe from all candle widths on the feed
    pub candle_widths: Option<Vec<CandleWidth>>,
}

/// Subscribe to a single candle width across many markets.
#[derive(Debug, Clone)]
pub struct SubscribeManyCandlesRequest {
    pub venue: Option<MarketdataVenue>,
    /// If None, subscribe from all symbols on the feed
    pub symbols: Option<Vec<String>>,
    pub candle_width: CandleWidth,
}

/// Subscribe to the current candle.  This allows you to display
/// the most recent/building candle live in a UI, for example.
#[derive(Debug, Clone)]
pub struct SubscribeCurrentCandlesRequest {
    pub venue: Option<MarketdataVenue>,
    pub symbol: String,
    pub candle_width: CandleWidth,
    /// If None, send the current candle on every trade or candle tick.
    /// Otherwise, send a candle every `tick_period_ms`.
    pub tick_period_ms: Option<u32>,
}

/// Prices and volumes over one candle width.
#[derive(Debug, Clone)]
pub struct Candle {
    pub timestamp: i64,
    pub timestamp_ns: u32,
    pub width: CandleWidth,
    pub symbol: String,
    pub open: Option<Decimal>,
    pub high: Option<Decimal>,
    pub low: Option<Decimal>,
    pub close: Option<Decimal>,
    pub volume: Decimal,
    pub buy_volume: Decimal,
    pub sell_volume: Decimal,
    pub mid_open: Option<Decimal>,
    pub mid_close: Option<Decimal>,
    pub mid_high: Option<Decimal>,
    pub mid_low: Option<Decimal>,
    pub bid_open: Option<Decimal>,
    pub bid_close: Option<Decimal>,
    pub bid_high: Option<Decimal>,
    pub bid_low: Option<Decimal>,
    pub ask_open: Option<Decimal>,
    pub ask_close: Option<Decimal>,
    pub ask_high: Option<Decimal>,
    pub ask_low: Option<Decimal>,
}

impl Candle {
    /// The candle of a period in which nothing traded: no prices, and zero
    /// volumes.
    pub fn default(timestamp: UtcTimestamp, width: CandleWidth, symbol: String) -> (r: Self)
        ensures
            r.timestamp == timestamp.secs,
            r.timestamp_ns == timestamp.nanos,
            r.width == width,
            r.symbol@ == symbol@,
            r.open is None && r.high is None && r.low is None && r.close is None,
            r.volume == zero() && r.buy_volume == zero() && r.sell_volume == zero(),
            r.volume.wf() && r.volume.units() == 0,
            r.mid_open is None && r.mid_close is None && r.mid_high is None && r.mid_low is None,
            r.bid_open is None && r.bid_close is None && r.bid_high is None && r.bid_low is None,
            r.ask_open is None && r.ask_close is None && r.ask_high is None && r.ask_low is None,
    {
        let volume = Decimal::new(0, 0);
        let buy_volume = Decimal::new(0, 0);
        let sell_volume = Decimal::new(0, 0);
        Candle {
            timestamp: timestamp.secs,
            timestamp_ns: timestamp.nanos,
            width,
            symbol,
            open: None,
            high: None,
            low: None,
            close: None,
            volume,
            buy_volume,
            sell_volume,
            mid_open: None,
            mid_close: None,
            mid_high: None,
            mid_low: None,
            bid_open: None,
            bid_close: None,
            bid_high: None,
            bid_low: None,
            ask_open: None,
            ask_close: None,
            ask_high: None,
            ask_low: None,
        }
    }
}

#[derive(Debug, Clone)]
pub struct SubscribeTradesRequest {
    pub venue: Option<MarketdataVenue>,
    /// If None, subscribe from all symbols on the feed
    pub symbol: Option<String>,
}

#[derive(Debug, Clone)]
pub struct Trade {
    pub symbol: String,
    pub timestamp: i64,
    pub timestamp_ns: u32,
    /// The maker's side.
    pub direction: Option<Dir>,
    pub price: Decimal,
    pub size: Decimal,
}

#[derive(Debug, Clone)]
pub struct MarketStatusRequest {
    pub venue: Option<MarketdataVenue>,
    pub symbol: String,
}

#[derive(Debug, Clone)]
pub struct MarketStatus {
    pub symbol: String,
    pub is_trading: Option<bool>,
    pub is_quoting: Option<bool>,
}

#[derive(Debug, Clone)]
pub struct TickerRequest {
    pub venue: Option<MarketdataVenue>,
    pub symbol: String,
}

#[derive(Debug, Copy, Clone, PartialEq, Eq, Structural)]
pub enum SortTickersBy {
    VolumeDesc,
    ChangeAsc,
    ChangeDesc,
    AbsChangeDesc,
}

impl SortTickersBy {
    /// The order's name in screaming snake case, e.g. "VOLUME_DESC".
    pub fn as_str(&self) -> (r: &'static str)
        ensures
            r@ == (match self {
                SortTickersBy::VolumeDesc => "VOLUME_DESC"@,
                SortTickersBy::ChangeAsc => "CHANGE_ASC"@,
                SortTickersBy::ChangeDesc => "CHANGE_DESC"@,
                SortTickersBy::AbsChangeDesc => "ABS_CHANGE_DESC"@,
            }),
    {
        match self {
            SortTickersBy::VolumeDesc => "VOLUME_DESC",
            SortTickersBy::ChangeAsc => "CHANGE_ASC",
            SortTickersBy::ChangeDesc => "CHANGE_DESC",
            SortTickersBy::AbsChangeDesc => "ABS_CHANGE_DESC",
        }
    }
}

/// The prices, sizes and statistics of a ticker.
#[derive(Debug, Clone)]
pub struct TickerValues {
    pub bid_price: Option<Decimal>,
    pub bid_size: Option<Decimal>,
    pub ask_price: Option<Decimal>,
    pub ask_size: Option<Decimal>,
    pub last_price: Option<Decimal>,
    pub last_size: Option<Decimal>,
    pub session_open: Option<Decimal>,
    pub session_low: Option<Decimal>,
    pub session_high: Option<Decimal>,
    pub session_volume: Option<Decimal>,
    pub open_24h: Option<Decimal>,
    pub low_24h: Option<Decimal>,
    pub high_24h: Option<Decimal>,
    pub volume_24h: Option<Decimal>,
    pub volume_30d: Option<Decimal>,
    pub open_interest: Option<Decimal>,
    pub last_settlement_price: Option<Decimal>,
    pub last_settlement_date: Option<NaiveDate>,
    pub mark_price: Option<Decimal>,
    pub index_price: Option<Decimal>,
    pub funding_rate: Option<Decimal>,
    pub next_funding_time: Option<UtcTimestamp>,
    pub market_cap: Option<Decimal>,
    pub price_to_earnings: Option<Decimal>,
    pub eps_adj: Option<Decimal>,
    pub shares_outstanding_weighted_adj: Option<Decimal>,
    pub dividend: Option<Decimal>,
    pub dividend_yield: Option<Decimal>,
    /// The ex-dividend date, as the venue writes it.
    pub dividend_ex_date: Option<String>,
}

/// Two, as a decimal.
pub open spec fn two() -> Decimal {
    Decimal { mantissa: 2, scale: 0 }
}

impl TickerValues {
    /// Whether none of the session, 24-hour, open interest, settlement,
    /// mark, index and funding statistics is known.
    pub fn is_none(&self) -> (r: bool)
        ensures
            r == (self.session_open is None && self.session_low is None
                && self.session_high is None && self.open_24h is None && self.low_24h is None
                && self.high_24h is None && self.volume_24h is None && self.volume_30d is None
                && self.open_interest is None && self.last_settlement_price is None
                && self.mark_price is None && self.index_price is None
                && self.funding_rate is None && self.next_funding_time is None),
    {
        self.session_open.is_none() && self.session_low.is_none() && self.session_high.is_none()
            && self.open_24h.is_none() && self.low_24h.is_none() && self.high_24h.is_none()
            && self.volume_24h.is_none() && self.volume_30d.is_none()
            && self.open_interest.is_none() && self.last_settlement_price.is_none()
            && self.mark_price.is_none() && self.index_price.is_none()
            && self.funding_rate.is_none() && self.next_funding_time.is_none()
    }

    /// The last price, else the mid of the bid and ask where both are
    /// known.  The mid is the sum halved as `rust_decimal` divides.  The
    /// `requires` asks more than `+` does: that the exact sum fits at the
    /// larger scale of the two prices.  `+` panics only where no smaller
    /// scale holds the sum either, and otherwise rounds it; sums that need
    /// rounding are left out here.
    pub fn last_or_mid_price(&self) -> (r: Option<Decimal>)
        requires
            self.last_price is None && self.bid_price is Some && self.ask_price is Some ==> {
                &&& self.bid_price->Some_0.wf()
                &&& self.ask_price->Some_0.wf()
                &&& fits(
                    self.bid_price->Some_0.units() + self.ask_price->Some_0.units(),
                    scale_max(self.bid_price->Some_0.scale, self.ask_price->Some_0.scale) as nat,
                )
            },
        ensures
            r == (match self.last_price {
                Some(p) => Some(p),
                None => match (self.bid_price, self.ask_price) {
                    (Some(b), Some(a)) => checked_quotient(spec_add(b, a), two()),
                    _ => None,
                },
            }),
            self.bid_price is Some && self.ask_price is Some ==> r is Some,
    {
        match self.last_price {
            Some(p) => Some(p),
            None => match (self.bid_price, self.ask_price) {
                (Some(b), Some(a)) => {
                    let sum = decimal_add(b, a);
                    proof {
                        lemma_spec_add(b, a);
                        lemma_pow10_pos(28);
                    }
                    decimal_checked_div(sum, Decimal::new(2, 0))
                },
                _ => None,
            },
        }
    }
}

/// A ticker: a symbol's values at a venue and time.
#[derive(Debug, Clone)]
pub struct Ticker {
    pub symbol: String,
    pub venue: MarketdataVenue,
    pub timestamp: i64,
    pub timestamp_ns: u32,
    pub values: TickerValues,
}

/// Ticker updates are not strongly ordered because the data is considered
/// more casual.  You may receive diffs or snapshots slightly out of order.
#[derive(Debug, Clone)]
pub struct SubscribeTickersRequest {
    /// If None, subscribe from all symbols on the feed
    pub symbols: Option<Vec<String>>,
}

/// A ticker in full, or the values of one that changed.
#[derive(Debug, Clone)]
pub enum TickerUpdate {
    Snapshot(Ticker),
    Diff(Ticker),
}

#[derive(Debug, Clone)]
pub struct SubscribeLiquidationsRequest {
    pub symbols: Option<Vec<String>>,
}

#[derive(Debug, Clone)]
pub struct Liquidation {
    pub symbol: String,
    pub timestamp: i64,
    pub timestamp_ns: u32,
    pub direction: Dir,
    pub price: Decimal,
    pub size: Decimal,
}

} // verus!
