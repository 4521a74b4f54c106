//! Account summaries: balances, positions and statistics of an account at a
//! time.
use crate::decimal::Decimal;
use crate::ids::AccountId;
use crate::symbology::product::Product;
use crate::symbology::tradable_product::TradableProduct;
use crate::time::UtcTimestamp;
use std::collections::BTreeMap;
use vstd::prelude::*;

verus! {

/// Balances by product.
pub type AccountBalances = BTreeMap<Product, Decimal>;

/// Positions by tradable product.
pub type AccountPositions = BTreeMap<TradableProduct, Vec<AccountPosition>>;

/// An account's balances, positions and statistics at a time.
#[derive(Debug, Clone)]
pub struct AccountSummary {
    pub account: AccountId,
    pub timestamp: UtcTimestamp,
    pub balances: AccountBalances,
    pub positions: AccountPositions,
    pub statistics: AccountStatistics,
}

impl AccountSummary {
    /// A summary with no balances, no positions and no statistics.
    pub fn new(account: AccountId, timestamp: UtcTimestamp) -> (r: Self)
        ensures
            r.account == account,
            r.timestamp == timestamp,
            r.balances@ == Map::<Product, Decimal>::empty(),
            r.positions@ == Map::<TradableProduct, Vec<AccountPosition>>::empty(),
            r.statistics.is_empty(),
    {
        Self {
            account,
            timestamp,
            balances: BTreeMap::new(),
            positions: BTreeMap::new(),
            statistics: AccountStatistics::default(),
        }
    }
}

/// Figures of an account, each where the venue reports it.
#[derive(Debug, Clone)]
pub struct AccountStatistics {
    /// Total account equity; net liquidation value.
    pub equity: Option<Decimal>,
    /// Margin requirement calculated for worst-case based on open positions
    /// and working orders.
    pub total_margin: Option<Decimal>,
    /// Margin requirement based on current positions only.
    pub position_margin: Option<Decimal>,
    /// Cash available to withdraw.
    pub cash_excess: Option<Decimal>,
    /// Total purchasing power; post-multiplied (e.g. for a cash margin
    /// account it could be twice the available cash).
    pub purchasing_power: Option<Decimal>,
    pub unrealized_pnl: Option<Decimal>,
    pub realized_pnl: Option<Decimal>,
    /// Yesterday's total account equity.
    pub yesterday_equity: Option<Decimal>,
}

impl AccountStatistics {
    /// No figure is known.
    pub open spec fn is_empty(&self) -> bool {
        &&& self.equity is None
        &&& self.total_margin is None
        &&& self.position_margin is None
        &&& self.cash_excess is None
        &&& self.purchasing_power is None
        &&& self.unrealized_pnl is None
        &&& self.realized_pnl is None
        &&& self.yesterday_equity is None
    }
}

impl Default for AccountStatistics {
    fn default() -> (r: Self)
        ensures
            r.is_empty(),
    {
        AccountStatistics {
            equity: None,
            total_margin: None,
            position_margin: None,
            cash_excess: None,
            purchasing_power: None,
            unrealized_pnl: None,
            realized_pnl: None,
            yesterday_equity: None,
        }
    }
}

/// A position in a tradable product.
#[derive(Debug, Clone)]
pub struct AccountPosition {
    pub quantity: Decimal,
    /// The meaning of this field varies by reporting venue.
    pub trade_time: Option<UtcTimestamp>,
    /// Cost basis of the position, if known.
    pub cost_basis: Option<Decimal>,
    /// Unrealized PNL of the position, if known.
    pub unrealized_pnl: Option<Decimal>,
    pub break_even_price: Option<Decimal>,
    pub liquidation_price: Option<Decimal>,
}

} // verus!
