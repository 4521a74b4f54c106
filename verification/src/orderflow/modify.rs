//! Requests to change the price or quantity of a live order.
use super::order::{Order, OrderStatus};
use super::order_id::{uuid_hyphenated, uuid_to_string, OrderId};
use super::order_types::{
    order_kind, spec_bracket_legs, spec_limit_price, spec_post_only, spec_trigger_price,
    BracketOrderType, LimitOrderType, OrderType, TriggerLimitOrderType,
};
use crate::decimal::Decimal;
use crate::error::Error;
use crate::strings::push_str;
use super::order::message_or_dashes;
use vstd::prelude::*;

verus! {

/// A request to modify an order.
#[derive(Debug, Clone)]
pub struct Modify {
    pub modify_id: u128,
    pub order_id: OrderId,
    /// The new order ID that will be assigned to the order after modification.
    pub new_order_id: OrderId,
    pub new_price: Option<Decimal>,
    pub new_quantity: Option<Decimal>,
    pub recv_time: i64,
    pub recv_time_ns: u32,
    pub status: ModifyStatus,
    pub reject_reason: Option<String>,
}

/// An order type with a new limit price; a market order has none to set.
pub open spec fn with_limit_price(t: OrderType, price: Decimal) -> Option<OrderType> {
    match t {
        OrderType::Market => None,
        OrderType::Limit(l) => Some(
            OrderType::Limit(LimitOrderType { limit_price: price, post_only: l.post_only }),
        ),
        OrderType::StopLossLimit(p) => Some(
            OrderType::StopLossLimit(
                TriggerLimitOrderType { limit_price: price, trigger_price: p.trigger_price },
            ),
        ),
        OrderType::TakeProfitLimit(p) => Some(
            OrderType::TakeProfitLimit(
                TriggerLimitOrderType { limit_price: price, trigger_price: p.trigger_price },
            ),
        ),
        OrderType::Bracket(b) => Some(
            OrderType::Bracket(
                BracketOrderType {
                    limit_price: price,
                    post_only: b.post_only,
                    take_profit_price: b.take_profit_price,
                    stop_loss: b.stop_loss,
                },
            ),
        ),
    }
}

/// The order a modification makes: the new id and quantity, pending
/// again, and the new limit price where one is given.
pub open spec fn spec_modified(m: Modify, order: Order) -> Result<Order, Error> {
    let order_type = match m.new_price {
        Some(p) => with_limit_price(order.order_type, p),
        None => Some(order.order_type),
    };
    match order_type {
        None => Err(Error::MarketOrderPrice),
        Some(t) => Ok(
            Order {
                id: m.new_order_id,
                quantity: match m.new_quantity {
                    Some(q) => q,
                    None => order.quantity,
                },
                status: OrderStatus::Pending,
                order_type: t,
                ..order
            },
        ),
    }
}

impl Modify {
    /// The answer that refuses this modification.
    pub fn reject(&self, message: Option<String>) -> (r: ModifyReject)
        ensures
            r.modify_id == self.modify_id,
            r.order_id == self.order_id,
            r.message == message,
    {
        ModifyReject { modify_id: self.modify_id, order_id: self.order_id, message }
    }

    /// Return a new order with the modified fields.
    pub fn modify(&self, order: Order) -> (r: Result<Order, Error>)
        ensures
            r == spec_modified(*self, order),
    {
        let mut order = order;
        order.id = self.new_order_id;
        order.quantity = match self.new_quantity {
            Some(q) => q,
            None => order.quantity,
        };
        order.status = OrderStatus::Pending;
        if let Some(price) = self.new_price {
            order.order_type = match order.order_type {
                OrderType::Limit(l) => OrderType::Limit(
                    LimitOrderType { limit_price: price, post_only: l.post_only },
                ),
                OrderType::StopLossLimit(p) => OrderType::StopLossLimit(
                    TriggerLimitOrderType { limit_price: price, trigger_price: p.trigger_price },
                ),
                OrderType::TakeProfitLimit(p) => OrderType::TakeProfitLimit(
                    TriggerLimitOrderType { limit_price: price, trigger_price: p.trigger_price },
                ),
                OrderType::Market => {
                    return Err(Error::MarketOrderPrice);
                },
                OrderType::Bracket(b) => OrderType::Bracket(
                    BracketOrderType {
                        limit_price: price,
                        post_only: b.post_only,
                        take_profit_price: b.take_profit_price,
                        stop_loss: b.stop_loss,
                    },
                ),
            };
        }
        Ok(order)
    }
}

/// A modification with neither a new price nor a new quantity only
/// renumbers the order and makes it pending again.
pub proof fn law_empty_modify_renumbers(m: Modify, order: Order)
    requires
        m.new_price is None,
        m.new_quantity is None,
    ensures
        spec_modified(m, order) == Ok::<Order, Error>(
            Order { id: m.new_order_id, status: OrderStatus::Pending, ..order },
        ),
{
}

/// Only a market order given a new price refuses to be modified.
pub proof fn law_modify_refused_only_for_market_price(m: Modify, order: Order)
    ensures
        spec_modified(m, order) is Err <==> (m.new_price is Some
            && order.order_type is Market),
{
}

/// A modification that goes through gives the order the new id, makes it
/// pending, sets the new quantity where one is given, and gives it the new
/// limit price where one is given; the kind of order, its trigger price,
/// post-only flag and bracket legs stay as they were, and so does every
/// other field of the order.
pub proof fn law_modify_sets_limit_price(m: Modify, order: Order)
    ensures
        spec_modified(m, order) matches Ok(o) ==> {
            &&& o.id == m.new_order_id
            &&& o.status == OrderStatus::Pending
            &&& o.quantity == (match m.new_quantity {
                Some(q) => q,
                None => order.quantity,
            })
            &&& spec_limit_price(o.order_type) == (match m.new_price {
                Some(p) => Some(p),
                None => spec_limit_price(order.order_type),
            })
            &&& order_kind(o.order_type) == order_kind(order.order_type)
            &&& spec_trigger_price(o.order_type) == spec_trigger_price(order.order_type)
            &&& spec_post_only(o.order_type) == spec_post_only(order.order_type)
            &&& spec_bracket_legs(o.order_type) == spec_bracket_legs(order.order_type)
            &&& (Order {
                id: order.id,
                quantity: order.quantity,
                status: order.status,
                order_type: order.order_type,
                ..o
            }) == order
        },
{
}

/// The state of a modification.
#[derive(Debug, Clone, Copy, PartialEq, Eq, Structural)]
pub enum ModifyStatus {
    Pending,
    Acked,
    Rejected,
    Out,
}

/// The number that stands for a modification status on the wire.
pub open spec fn modify_status_code(s: ModifyStatus) -> u8 {
    match s {
        ModifyStatus::Pending => 0,
        ModifyStatus::Acked => 1,
        ModifyStatus::Rejected => 2,
        ModifyStatus::Out => 127,
    }
}

impl ModifyStatus {
    /// The status's number on the wire.
    pub fn as_u8(&self) -> (r: u8)
        ensures
            r == modify_status_code(*self),
    {
        match self {
            ModifyStatus::Pending => 0,
            ModifyStatus::Acked => 1,
            ModifyStatus::Rejected => 2,
            ModifyStatus::Out => 127,
        }
    }
}

/// A modification was refused.
#[derive(Debug, Clone)]
pub struct ModifyReject {
    pub modify_id: u128,
    pub order_id: OrderId,
    pub message: Option<String>,
}

impl ModifyReject {
    /// "modify ID rejected: MESSAGE".
    pub fn to_error_string(&self) -> (r: String)
        ensures
            r@ == "modify "@ + uuid_hyphenated(self.modify_id) + " rejected: "@
                + message_or_dashes(self.message),
    {
        let mut out = String::from_str("modify ");
        let id = uuid_to_string(self.modify_id);
        push_str(&mut out, id.as_str());
        push_str(&mut out, " rejected: ");
        match &self.message {
            Some(m) => push_str(&mut out, m.as_str()),
            None => push_str(&mut out, "--"),
        }
        out
    }
}

} // verus!
