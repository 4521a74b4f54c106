//! Marketdata requests of the external plugin protocol, which name
//! markets by id or by symbol.
use crate::ids::MarketId;
use crate::decimal::Decimal;
use crate::dir::Dir;
use crate::marketdata::candle_width::CandleWidth;
use crate::time::UtcTimestamp;
use vstd::prelude::*;

verus! {

#[derive(Debug, Clone)]
pub struct L1BookSnapshotRequest {
    pub market_id: Option<MarketId>,
    pub symbol: Option<String>,
}

#[derive(Debug, Clone)]
pub struct L1BookSnapshotsRequest {
    pub market_ids: Option<Vec<MarketId>>,
    pub symbols: Option<Vec<String>>,
}

#[derive(Debug, Clone)]
pub struct SubscribeL1BookSnapshotsRequest {
    /// If None, subscribe from all symbols on the feed
    pub market_ids: Option<Vec<MarketId>>,
    /// If None, subscribe from all symbols on the feed
    pub symbols: Option<Vec<String>>,
}

impl From<Vec<MarketId>> for SubscribeL1BookSnapshotsRequest {
    /// A subscription to the given markets.
    fn from(market_ids: Vec<MarketId>) -> (r: Self) {
        SubscribeL1BookSnapshotsRequest { market_ids: Some(market_ids), symbols: None }
    }
}

impl vstd::std_specs::convert::FromSpecImpl<Vec<MarketId>> for SubscribeL1BookSnapshotsRequest {
    open spec fn obeys_from_spec() -> bool {
        true
    }

    open spec fn from_spec(market_ids: Vec<MarketId>) -> Self {
        SubscribeL1BookSnapshotsRequest { market_ids: Some(market_ids), symbols: None }
    }
}

impl From<Option<MarketId>> for SubscribeL1BookSnapshotsRequest {
    /// A subscription to one market, or to every market.
    fn from(market_id: Option<MarketId>) -> (r: Self)
        ensures
            r.symbols is None,
            match market_id {
                Some(id) => r.market_ids matches Some(v) && v@ == seq![id],
                None => r.market_ids is None,
            },
    {
        let market_ids = match market_id {
            Some(id) => Some(vec![id]),
            None => None,
        };
        SubscribeL1BookSnapshotsRequest { market_ids, symbols: None }
    }
}

impl vstd::std_specs::convert::FromSpecImpl<Option<MarketId>> for SubscribeL1BookSnapshotsRequest {
    /// The list of one market is a vector that no spec function of the
    /// argument builds, so the conversion is stated by the `ensures` of
    /// `from` and not by `from_spec`.
    open spec fn obeys_from_spec() -> bool {
        false
    }

    open spec fn from_spec(market_id: Option<MarketId>) -> Self {
        choose|r: Self|
            r.symbols is None && match market_id {
                Some(id) => r.market_ids matches Some(v) && v@ == seq![id],
                None => r.market_ids is None,
            }
    }
}

/// The best bid and ask of a market, each a price and a size.
#[derive(Debug, Clone)]
pub struct L1BookSnapshot {
    pub market_id: Option<MarketId>,
    pub symbol: Option<String>,
    pub timestamp: i64,
    pub timestamp_ns: u32,
    pub epoch: Option<i64>,
    pub seqno: Option<u64>,
    pub best_bid: Option<(Decimal, Decimal)>,
    pub best_ask: Option<(Decimal, Decimal)>,
}

impl L1BookSnapshot {
    pub fn new(
        market_id: Option<MarketId>,
        symbol: Option<String>,
        timestamp: UtcTimestamp,
        epoch: Option<UtcTimestamp>,
        seqno: Option<u64>,
        best_bid: Option<(Decimal, Decimal)>,
        best_ask: Option<(Decimal, Decimal)>,
    ) -> (r: Self)
        ensures
            r.market_id == market_id,
            r.symbol == symbol,
            r.timestamp == timestamp.secs,
            r.timestamp_ns == timestamp.nanos,
            r.epoch == (match epoch {
                Some(e) => Some(e.secs),
                None => None,
            }),
            r.seqno == seqno,
            r.best_bid == best_bid,
            r.best_ask == best_ask,
    {
        let epoch = match epoch {
            Some(e) => Some(e.secs),
            None => None,
        };
        L1BookSnapshot {
            market_id,
            symbol,
            timestamp: timestamp.secs,
            timestamp_ns: timestamp.nanos,
            epoch,
            seqno,
            best_bid,
            best_ask,
        }
    }
}

/// A trade in a market.
#[derive(Debug, Clone)]
pub struct Trade {
    pub market_id: Option<MarketId>,
    pub symbol: Option<String>,
    pub timestamp: i64,
    pub timestamp_ns: u32,
    /// The maker's side.
    pub direction: Option<Dir>,
    pub price: Decimal,
    pub size: Decimal,
}

impl Trade {
    pub fn new(
        market_id: Option<MarketId>,
        symbol: Option<String>,
        price: Decimal,
        size: Decimal,
        direction: Option<Dir>,
        timestamp: UtcTimestamp,
    ) -> (r: Self)
        ensures
            r.market_id == market_id,
            r.symbol == symbol,
            r.timestamp == timestamp.secs,
            r.timestamp_ns == timestamp.nanos,
            r.direction == direction,
            r.price == price,
            r.size == size,
    {
        Trade {
            market_id,
            symbol,
            timestamp: timestamp.secs,
            timestamp_ns: timestamp.nanos,
            direction,
            price,
            size,
        }
    }
}

#[derive(Debug, Clone)]
pub struct L2BookSnapshotRequest {
    pub market_id: Option<MarketId>,
    pub symbol: Option<String>,
}

#[derive(Debug, Clone)]
pub struct SubscribeL2BookUpdatesRequest {
    pub market_id: Option<MarketId>,
    pub symbol: Option<String>,
}

#[derive(Debug, Clone, Copy)]
pub struct QueryExternalL2BookSnapshot {
    pub market_id: MarketId,
}

#[derive(Debug, Clone)]
pub struct SubscribeCandlesRequest {
    pub market_id: Option<MarketId>,
    pub symbol: Option<String>,
    /// If None, subscribe from all candle widths on the feed
    pub candle_width: Option<Vec<CandleWidth>>,
}

#[derive(Debug, Clone)]
pub struct SubscribeManyCandlesRequest {
    /// If None, subscribe from all symbols on the feed
    pub market_ids: Option<Vec<MarketId>>,
    pub symbols: Option<Vec<String>>,
    pub candle_width: CandleWidth,
}

#[derive(Debug, Clone)]
pub struct SubscribeTradesRequest {
    /// If None, subscribe from all symbols on the feed
    pub market_id: Option<MarketId>,
    pub symbol: Option<String>,
}

#[derive(Debug, Clone)]
pub struct MarketStatusRequest {
    pub market_id: Option<MarketId>,
    pub symbol: Option<String>,
}

#[derive(Debug, Clone)]
pub struct MarketStatus {
    pub market_id: Option<MarketId>,
    pub symbol: Option<String>,
    pub is_trading: Option<bool>,
}

#[derive(Debug, Clone)]
pub struct TickerRequest {
    pub market_id: Option<MarketId>,
    pub symbol: Option<String>,
}

#[derive(Debug, Clone)]
pub struct SubscribeTickersRequest {
    /// If None, subscribe from all symbols on the feed
    pub market_ids: Option<Vec<MarketId>>,
    pub symbols: Option<Vec<String>>,
}

#[derive(Debug, Clone)]
pub struct SubscribeLiquidationsRequest {
    /// If None, subscribe from all symbols on the feed
    pub market_ids: Option<Vec<MarketId>>,
    pub symbols: Option<Vec<String>>,
}

#[derive(Debug, Clone)]
pub struct ExchangeSpecificFieldsRequest {
    pub market_id: Option<MarketId>,
    pub symbol: Option<String>,
    /// If None, subscribe from all exchange-specific fields on the feed
    pub fields: Option<Vec<String>>,
}

/// A level-2 book as an external venue reports it: price and size levels
/// on each side, with the venue's sequence epoch and number.
#[derive(Debug, Clone)]
pub struct ExternalL2BookSnapshot {
    pub timestamp: UtcTimestamp,
    pub epoch: UtcTimestamp,
    pub seqno: u64,
    pub bids: Vec<(Decimal, Decimal)>,
    pub asks: Vec<(Decimal, Decimal)>,
}

/// A market's 24-hour statistics, named by market id or by symbol.
#[derive(Debug, Clone)]
pub struct Ticker {
    pub market_id: Option<MarketId>,
    pub symbol: Option<String>,
    pub open_24h: Option<Decimal>,
    pub volume_24h: Option<Decimal>,
    pub low_24h: Option<Decimal>,
    pub high_24h: Option<Decimal>,
    pub volume_30d: Option<Decimal>,
    pub open_interest: Option<Decimal>,
}

/// The statistics of a ticker that changed at a time.
#[derive(Debug, Clone)]
pub struct TickerDiff {
    pub market_id: Option<MarketId>,
    pub symbol: Option<String>,
    pub timestamp: i64,
    pub timestamp_ns: u32,
    pub open_24h: Option<Decimal>,
    pub volume_24h: Option<Decimal>,
    pub low_24h: Option<Decimal>,
    pub high_24h: Option<Decimal>,
    pub volume_30d: Option<Decimal>,
    pub open_interest: Option<Decimal>,
}

/// Ticker updates are not strongly ordered because the data is considered
/// more casual: diffs or snapshots may come slightly out of order.
#[derive(Debug, Clone)]
pub enum TickerUpdate {
    Snapshot(Ticker),
    Diff(TickerDiff),
}

} // verus!
