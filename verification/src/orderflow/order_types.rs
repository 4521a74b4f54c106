//! The kinds of order and their prices.
use crate::decimal::Decimal;
use vstd::prelude::*;

verus! {

#[derive(Debug, Clone, Copy)]
pub struct LimitOrderType {
    pub limit_price: Decimal,
    pub post_only: bool,
}

#[derive(Debug, Clone, Copy)]
pub struct TriggerLimitOrderType {
    pub limit_price: Decimal,
    pub trigger_price: Decimal,
}

#[derive(Debug, Clone, Copy)]
pub struct BracketOrderType {
    pub limit_price: Decimal,
    pub post_only: bool,
    pub take_profit_price: Option<Decimal>,
    pub stop_loss: Option<TriggerLimitOrderType>,
}

#[derive(Debug, Clone, Copy)]
pub enum OrderType {
    Market,
    Limit(LimitOrderType),
    StopLossLimit(TriggerLimitOrderType),
    TakeProfitLimit(TriggerLimitOrderType),
    Bracket(BracketOrderType),
}

/// The limit price of an order type; a market order has none.
pub open spec fn spec_limit_price(t: OrderType) -> Option<Decimal> {
    match t {
        OrderType::Market => None,
        OrderType::Limit(l) => Some(l.limit_price),
        OrderType::StopLossLimit(p) => Some(p.limit_price),
        OrderType::TakeProfitLimit(p) => Some(p.limit_price),
        OrderType::Bracket(b) => Some(b.limit_price),
    }
}

/// Whether an order type is post-only; only limit and bracket orders say.
pub open spec fn spec_post_only(t: OrderType) -> Option<bool> {
    match t {
        OrderType::Limit(l) => Some(l.post_only),
        OrderType::Bracket(b) => Some(b.post_only),
        _ => None,
    }
}

/// The trigger price of an order type: that of a stop-loss or take-profit
/// order, or of a bracket's stop loss.
pub open spec fn spec_trigger_price(t: OrderType) -> Option<Decimal> {
    match t {
        OrderType::StopLossLimit(p) => Some(p.trigger_price),
        OrderType::TakeProfitLimit(p) => Some(p.trigger_price),
        OrderType::Bracket(b) => match b.stop_loss {
            Some(sl) => Some(sl.trigger_price),
            None => None,
        },
        _ => None,
    }
}

/// The take-profit price and the stop loss of a bracket order.
pub open spec fn spec_bracket_legs(t: OrderType) -> Option<(Option<Decimal>, Option<TriggerLimitOrderType>)> {
    match t {
        OrderType::Bracket(b) => Some((b.take_profit_price, b.stop_loss)),
        _ => None,
    }
}

/// Which kind of order a type is, as a number in declaration order.
pub open spec fn order_kind(t: OrderType) -> int {
    match t {
        OrderType::Market => 0,
        OrderType::Limit(_) => 1,
        OrderType::StopLossLimit(_) => 2,
        OrderType::TakeProfitLimit(_) => 3,
        OrderType::Bracket(_) => 4,
    }
}

impl OrderType {
    pub fn limit_price(&self) -> (r: Option<Decimal>)
        ensures
            r == spec_limit_price(*self),
    {
        match self {
            OrderType::Limit(limit) => Some(limit.limit_price),
            OrderType::StopLossLimit(stop_loss) => Some(stop_loss.limit_price),
            OrderType::TakeProfitLimit(take_profit) => Some(take_profit.limit_price),
            OrderType::Market => None,
            OrderType::Bracket(bracket) => Some(bracket.limit_price),
        }
    }

    pub fn post_only(&self) -> (r: Option<bool>)
        ensures
            r == spec_post_only(*self),
    {
        match self {
            OrderType::Limit(limit) => Some(limit.post_only),
            OrderType::StopLossLimit(_) => None,
            OrderType::TakeProfitLimit(_) => None,
            OrderType::Market => None,
            OrderType::Bracket(br) => Some(br.post_only),
        }
    }

    pub fn trigger_price(&self) -> (r: Option<Decimal>)
        ensures
            r == spec_trigger_price(*self),
    {
        match self {
            OrderType::Limit(_) => None,
            OrderType::StopLossLimit(stop_loss) => Some(stop_loss.trigger_price),
            OrderType::TakeProfitLimit(take_profit) => Some(take_profit.trigger_price),
            OrderType::Market => None,
            OrderType::Bracket(bracket) => match &bracket.stop_loss {
                Some(sl) => Some(sl.trigger_price),
                None => None,
            },
        }
    }
}

impl BracketOrderType {
    pub fn has_take_profit(&self) -> (r: bool)
        ensures
            r == self.take_profit_price is Some,
    {
        self.take_profit_price.is_some()
    }

    pub fn has_stop_loss(&self) -> (r: bool)
        ensures
            r == self.stop_loss is Some,
    {
        self.stop_loss.is_some()
    }
}

} // verus!
