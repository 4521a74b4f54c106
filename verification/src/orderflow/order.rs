//! Orders, their statuses, and the answers a venue gives about them.
use super::order_id::{order_id_text, OrderId};
use super::order_types::OrderType;
use crate::decimal::Decimal;
use crate::dir::Dir;
use crate::ids::{AccountId, UserId};
use crate::strings::push_str;
use crate::symbology::tradable_product::TradableProduct;
use crate::symbology::venue::ExecutionVenue;
use crate::time::UtcTimestamp;
use vstd::prelude::*;

verus! {

/// An order as the system knows it.
#[derive(Debug, Clone)]
pub struct Order {
    pub id: OrderId,
    pub parent_id: Option<OrderId>,
    pub exchange_order_id: Option<String>,
    pub recv_time: i64,
    pub recv_time_ns: u32,
    pub status: OrderStatus,
    pub reject_reason: Option<OrderRejectReason>,
    pub reject_message: Option<String>,
    pub symbol: TradableProduct,
    pub trader: UserId,
    pub account: AccountId,
    pub dir: Dir,
    pub quantity: Decimal,
    pub filled_quantity: Decimal,
    pub average_fill_price: Option<Decimal>,
    pub order_type: OrderType,
    pub time_in_force: TimeInForce,
    pub source: OrderSource,
    pub execution_venue: ExecutionVenue,
    pub is_short_sale: Option<bool>,
}

/// How long an order stays on the book.
#[derive(Debug, Clone, Copy, PartialEq, Eq, Structural)]
pub enum TimeInForce {
    GoodTilCancel,
    GoodTilDate(UtcTimestamp),
    GoodTilDay,
    ImmediateOrCancel,
    FillOrKill,
    AtTheOpen,
    AtTheClose,
}

impl TimeInForce {
    pub fn good_til_date(&self) -> (r: Option<UtcTimestamp>)
        ensures
            r == (match *self {
                TimeInForce::GoodTilDate(dt) => Some(dt),
                _ => None,
            }),
    {
        match self {
            TimeInForce::GoodTilDate(dt) => Some(*dt),
            _ => None,
        }
    }
}

/// Where an order came from.
#[derive(Debug, Clone, Copy, PartialEq, Eq, Structural)]
pub enum OrderSource {
    API,
    GUI,
    Algo,
    Reconciled,
    CLI,
    Telegram,
    Other,
}

/// The number that stands for an order source on the wire.
pub open spec fn order_source_code(s: OrderSource) -> u8 {
    match s {
        OrderSource::API => 0,
        OrderSource::GUI => 1,
        OrderSource::Algo => 2,
        OrderSource::Reconciled => 3,
        OrderSource::CLI => 4,
        OrderSource::Telegram => 5,
        OrderSource::Other => 255,
    }
}

impl OrderSource {
    /// The source's number on the wire.
    pub fn as_u8(&self) -> (r: u8)
        ensures
            r == order_source_code(*self),
    {
        match self {
            OrderSource::API => 0,
            OrderSource::GUI => 1,
            OrderSource::Algo => 2,
            OrderSource::Reconciled => 3,
            OrderSource::CLI => 4,
            OrderSource::Telegram => 5,
            OrderSource::Other => 255,
        }
    }
}

/// The state of an order.
#[derive(Debug, Clone, Copy, PartialEq, Eq, Structural)]
pub enum OrderStatus {
    Pending,
    Open,
    Rejected,
    Out,
    Canceling,
    Canceled,
    ReconciledOut,
    Stale,
    Unknown,
}

/// The number that stands for an order status on the wire.
pub open spec fn order_status_code(s: OrderStatus) -> u8 {
    match s {
        OrderStatus::Pending => 0,
        OrderStatus::Open => 1,
        OrderStatus::Rejected => 2,
        OrderStatus::Out => 127,
        OrderStatus::Canceling => 128,
        OrderStatus::Canceled => 129,
        OrderStatus::ReconciledOut => 130,
        OrderStatus::Stale => 254,
        OrderStatus::Unknown => 255,
    }
}

/// Whether an order in this status may still trade.
pub open spec fn status_is_alive(s: OrderStatus) -> bool {
    match s {
        OrderStatus::Pending | OrderStatus::Open | OrderStatus::Canceling | OrderStatus::Stale
        | OrderStatus::Unknown => true,
        OrderStatus::Out | OrderStatus::Canceled | OrderStatus::Rejected
        | OrderStatus::ReconciledOut => false,
    }
}

impl OrderStatus {
    pub fn is_alive(&self) -> (r: bool)
        ensures
            r == status_is_alive(*self),
    {
        match self {
            OrderStatus::Pending | OrderStatus::Open | OrderStatus::Canceling | OrderStatus::Stale
            | OrderStatus::Unknown => true,
            OrderStatus::Out | OrderStatus::Canceled | OrderStatus::Rejected
            | OrderStatus::ReconciledOut => false,
        }
    }

    pub fn is_dead(&self) -> (r: bool)
        ensures
            r == !status_is_alive(*self),
    {
        !self.is_alive()
    }

    /// The status's number on the wire.
    pub fn as_u8(&self) -> (r: u8)
        ensures
            r == order_status_code(*self),
    {
        match self {
            OrderStatus::Pending => 0,
            OrderStatus::Open => 1,
            OrderStatus::Rejected => 2,
            OrderStatus::Out => 127,
            OrderStatus::Canceling => 128,
            OrderStatus::Canceled => 129,
            OrderStatus::ReconciledOut => 130,
            OrderStatus::Stale => 254,
            OrderStatus::Unknown => 255,
        }
    }

    /// The status a wire number stands for, if any.
    pub fn from_u8(n: u8) -> (r: Option<Self>)
        ensures
            r matches Some(s) ==> order_status_code(s) == n,
            r is None ==> forall|s: OrderStatus| order_status_code(s) != n,
    {
        match n {
            0 => Some(OrderStatus::Pending),
            1 => Some(OrderStatus::Open),
            2 => Some(OrderStatus::Rejected),
            127 => Some(OrderStatus::Out),
            128 => Some(OrderStatus::Canceling),
            129 => Some(OrderStatus::Canceled),
            130 => Some(OrderStatus::ReconciledOut),
            254 => Some(OrderStatus::Stale),
            255 => Some(OrderStatus::Unknown),
            _ => None,
        }
    }
}

/// Every status is alive or dead and not both, and its wire number reads
/// back as the status.
pub proof fn law_status_alive_or_dead(s: OrderStatus)
    ensures
        status_is_alive(s) != !status_is_alive(s),
        forall|t: OrderStatus| order_status_code(t) == order_status_code(s) ==> t == s,
{
}

/// An order was acknowledged by its venue.
#[derive(Debug, Clone)]
pub struct OrderAck {
    pub order_id: OrderId,
    pub exchange_order_id: Option<String>,
}

/// Why an order was refused.
#[derive(Debug, Clone, Copy, PartialEq, Eq, Structural)]
pub enum OrderRejectReason {
    DuplicateOrderId,
    NotAuthorized,
    NoExecutionVenue,
    NoAccount,
    NoCpty,
    UnsupportedOrderType,
    UnsupportedExecutionVenue,
    InsufficientCash,
    InsufficientMargin,
    NotEasyToBorrow,
    Unknown,
}

/// The name of a reject reason.
pub open spec fn reject_reason_name(r: OrderRejectReason) -> Seq<char> {
    match r {
        OrderRejectReason::DuplicateOrderId => "DuplicateOrderId"@,
        OrderRejectReason::NotAuthorized => "NotAuthorized"@,
        OrderRejectReason::NoExecutionVenue => "NoExecutionVenue"@,
        OrderRejectReason::NoAccount => "NoAccount"@,
        OrderRejectReason::NoCpty => "NoCpty"@,
        OrderRejectReason::UnsupportedOrderType => "UnsupportedOrderType"@,
        OrderRejectReason::UnsupportedExecutionVenue => "UnsupportedExecutionVenue"@,
        OrderRejectReason::InsufficientCash => "InsufficientCash"@,
        OrderRejectReason::InsufficientMargin => "InsufficientMargin"@,
        OrderRejectReason::NotEasyToBorrow => "NotEasyToBorrow"@,
        OrderRejectReason::Unknown => "Unknown"@,
    }
}

impl OrderRejectReason {
    /// The reason's name.
    pub fn as_str(&self) -> (r: &'static str)
        ensures
            r@ == reject_reason_name(*self),
    {
        match self {
            OrderRejectReason::DuplicateOrderId => "DuplicateOrderId",
            OrderRejectReason::NotAuthorized => "NotAuthorized",
            OrderRejectReason::NoExecutionVenue => "NoExecutionVenue",
            OrderRejectReason::NoAccount => "NoAccount",
            OrderRejectReason::NoCpty => "NoCpty",
            OrderRejectReason::UnsupportedOrderType => "UnsupportedOrderType",
            OrderRejectReason::UnsupportedExecutionVenue => "UnsupportedExecutionVenue",
            OrderRejectReason::InsufficientCash => "InsufficientCash",
            OrderRejectReason::InsufficientMargin => "InsufficientMargin",
            OrderRejectReason::NotEasyToBorrow => "NotEasyToBorrow",
            OrderRejectReason::Unknown => "Unknown",
        }
    }
}

/// An order was refused.
#[derive(Debug, Clone)]
pub struct OrderReject {
    pub order_id: OrderId,
    pub reason: OrderRejectReason,
    pub message: Option<String>,
}

/// The message of a refusal, or "--" where there is none.
pub open spec fn message_or_dashes(m: Option<String>) -> Seq<char> {
    match m {
        Some(m) => m@,
        None => "--"@,
    }
}

impl OrderReject {
    /// "order ID rejected: MESSAGE (REASON)".
    pub fn to_error_string(&self) -> (r: String)
        ensures
            r@ == "order "@ + order_id_text(self.order_id) + " rejected: "@ + message_or_dashes(
                self.message,
            ) + " ("@ + reject_reason_name(self.reason) + ")"@,
    {
        let mut out = String::from_str("order ");
        let id = self.order_id.to_string();
        push_str(&mut out, id.as_str());
        push_str(&mut out, " rejected: ");
        match &self.message {
            Some(m) => push_str(&mut out, m.as_str()),
            None => push_str(&mut out, "--"),
        }
        push_str(&mut out, " (");
        push_str(&mut out, self.reason.as_str());
        push_str(&mut out, ")");
        out
    }
}

#[derive(Debug, Clone, Copy)]
pub struct OrderCanceling {
    pub order_id: OrderId,
    pub cancel_id: Option<u128>,
}

#[derive(Debug, Clone, Copy)]
pub struct OrderCanceled {
    pub order_id: OrderId,
    pub cancel_id: Option<u128>,
}

#[derive(Debug, Clone, Copy)]
pub struct OrderOut {
    pub order_id: OrderId,
}

#[derive(Debug, Clone, Copy)]
pub struct OrderStale {
    pub order_id: OrderId,
}

} // verus!
