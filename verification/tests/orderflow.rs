use architect_api::orderflow::cancel::CancelReject;
use architect_api::error::Error;
use architect_api::ids::{AccountId, UserId};
use architect_api::orderflow::account::AccountPermissions;
use architect_api::orderflow::fill::FillKind;
use architect_api::orderflow::modify::{Modify, ModifyStatus};
use architect_api::orderflow::order::{
    Order, OrderReject, OrderRejectReason, OrderSource, OrderStatus, TimeInForce,
};
use architect_api::orderflow::order_id::OrderId;
use architect_api::orderflow::order_types::{
    BracketOrderType, LimitOrderType, OrderType, TriggerLimitOrderType,
};
use architect_api::orderflow_v2::DropcopyRequest;
use architect_api::symbology::tradable_product::TradableProduct;
use architect_api::symbology::venue::ExecutionVenue;
use architect_api::{Decimal, Dir};
use std::str::FromStr;

fn dec(s: &str) -> Decimal {
    let d = rust_decimal::Decimal::from_str(s).unwrap();
    Decimal::from_i128_with_scale(d.mantissa(), d.scale())
}

const SEQID: &str = "d3f97244-78e6-4549-abf6-90adfe0ab7fe";

#[test]
fn order_id_text() {
    let id = OrderId::from_str(&format!("{SEQID}:123")).unwrap();
    assert_eq!(id.seqid, 0xd3f9724478e64549abf690adfe0ab7fe);
    assert_eq!(id.seqno, 123);
    assert_eq!(id.to_string(), format!("{SEQID}:123"));
    assert_eq!(OrderId::from_str("42").unwrap(), OrderId::nil(42));
    assert_eq!(OrderId::nil(42).to_string(), "42");
    assert_eq!(OrderId::from_str("+7").unwrap(), OrderId::nil(7));
    assert_eq!(OrderId::from_str("x:1"), Err(Error::InvalidOrderId("x:1".to_string())));
    assert_eq!(OrderId::from_str("-1"), Err(Error::InvalidOrderId("-1".to_string())));
    assert_eq!(
        OrderId::from_str("18446744073709551616"),
        Err(Error::InvalidOrderId("18446744073709551616".to_string()))
    );
}

#[test]
fn order_status_liveness() {
    for s in [OrderStatus::Pending, OrderStatus::Open, OrderStatus::Canceling, OrderStatus::Stale, OrderStatus::Unknown] {
        assert!(s.is_alive());
        assert!(!s.is_dead());
    }
    for s in [OrderStatus::Out, OrderStatus::Canceled, OrderStatus::Rejected, OrderStatus::ReconciledOut] {
        assert!(!s.is_alive());
        assert!(s.is_dead());
    }
    assert_eq!(OrderStatus::from_u8(OrderStatus::ReconciledOut.as_u8()), Some(OrderStatus::ReconciledOut));
    assert_eq!(OrderStatus::from_u8(3), None);
    assert_eq!(OrderSource::Other.as_u8(), 255);
    assert_eq!(FillKind::from_u8(2), Some(FillKind::Correction));
    assert_eq!(ModifyStatus::Out.as_u8(), 127);
}

#[test]
fn order_type_prices() {
    let limit = OrderType::Limit(LimitOrderType { limit_price: dec("4500"), post_only: true });
    assert_eq!(limit.limit_price(), Some(dec("4500")));
    assert_eq!(limit.post_only(), Some(true));
    assert_eq!(limit.trigger_price(), None);
    let stop = OrderType::StopLossLimit(TriggerLimitOrderType { limit_price: dec("10"), trigger_price: dec("11") });
    assert_eq!(stop.trigger_price(), Some(dec("11")));
    assert_eq!(stop.post_only(), None);
    let bracket = BracketOrderType {
        limit_price: dec("1"),
        post_only: false,
        take_profit_price: None,
        stop_loss: Some(TriggerLimitOrderType { limit_price: dec("0.5"), trigger_price: dec("0.6") }),
    };
    assert!(!bracket.has_take_profit());
    assert!(bracket.has_stop_loss());
    assert_eq!(OrderType::Bracket(bracket).trigger_price(), Some(dec("0.6")));
    assert_eq!(OrderType::Market.limit_price(), None);
}

fn order(order_type: OrderType) -> Order {
    Order {
        id: OrderId::nil(123),
        parent_id: None,
        exchange_order_id: None,
        recv_time: 0,
        recv_time_ns: 0,
        status: OrderStatus::Open,
        reject_reason: None,
        reject_message: None,
        symbol: TradableProduct::from_str("BTC Crypto/USD").unwrap(),
        trader: UserId(1),
        account: AccountId(2),
        dir: Dir::Buy,
        quantity: dec("100"),
        filled_quantity: dec("0"),
        average_fill_price: None,
        order_type,
        time_in_force: TimeInForce::GoodTilCancel,
        source: OrderSource::API,
        execution_venue: ExecutionVenue::new("BINANCE".to_string()),
        is_short_sale: None,
    }
}

fn modify(new_price: Option<Decimal>, new_quantity: Option<Decimal>) -> Modify {
    Modify {
        modify_id: 7,
        order_id: OrderId::nil(123),
        new_order_id: OrderId::nil(456),
        new_price,
        new_quantity,
        recv_time: 0,
        recv_time_ns: 0,
        status: ModifyStatus::Pending,
        reject_reason: None,
    }
}

#[test]
fn modify_orders() {
    let o = order(OrderType::Limit(LimitOrderType { limit_price: dec("4500"), post_only: true }));
    let m = modify(Some(dec("4250")), Some(dec("50"))).modify(o).unwrap();
    assert_eq!(m.id, OrderId::nil(456));
    assert_eq!(m.quantity, dec("50"));
    assert_eq!(m.status, OrderStatus::Pending);
    assert_eq!(m.order_type.limit_price(), Some(dec("4250")));
    assert_eq!(m.order_type.post_only(), Some(true));
    let o = order(OrderType::Limit(LimitOrderType { limit_price: dec("4500"), post_only: true }));
    let m = modify(None, None).modify(o).unwrap();
    assert_eq!(m.quantity, dec("100"));
    assert_eq!(m.order_type.limit_price(), Some(dec("4500")));
    let market = order(OrderType::Market);
    assert!(matches!(modify(Some(dec("1")), None).modify(market), Err(Error::MarketOrderPrice)));
    let market = order(OrderType::Market);
    assert_eq!(modify(None, Some(dec("3"))).modify(market).unwrap().quantity, dec("3"));
    let r = modify(None, None).reject(Some("too late".to_string()));
    assert_eq!(r.to_error_string(), "modify 00000000-0000-0000-0000-000000000007 rejected: too late");
}

#[test]
fn reject_text() {
    let r = OrderReject { order_id: OrderId::nil(5), reason: OrderRejectReason::NoAccount, message: None };
    assert_eq!(r.to_error_string(), "order 5 rejected: -- (NoAccount)");
    let r = OrderReject {
        order_id: OrderId::nil(6),
        reason: OrderRejectReason::InsufficientCash,
        message: Some("need more".to_string()),
    };
    assert_eq!(r.to_error_string(), "order 6 rejected: need more (InsufficientCash)");
}

#[test]
fn account_permissions() {
    assert_eq!(AccountPermissions::all().display(), "allow(list, view, trade, reduce_or_close, set_limits) deny()");
    assert_eq!(AccountPermissions::none().display(), "allow() deny(list, view, trade, reduce_or_close, set_limits)");
    let p = AccountPermissions { list: Some(true), view: None, trade: Some(false), reduce_or_close: None, set_limits: Some(true) };
    assert_eq!(p.display(), "allow(list, set_limits) deny(trade)");
    assert_eq!(AccountPermissions::default().display(), "allow() deny()");
    let d = p.with_default(&AccountPermissions::all());
    assert_eq!(d, AccountPermissions { list: Some(true), view: Some(true), trade: Some(false), reduce_or_close: Some(true), set_limits: Some(true) });
    assert!(p.list());
    assert!(!p.view());
    assert!(!p.trade());
    assert!(p.set_limits());
    assert!(!p.reduce_or_close());
}

#[test]
fn dropcopy_defaults() {
    assert!(DropcopyRequest::default_fills());
    assert_eq!(DropcopyRequest::default(), DropcopyRequest { orders: false, fills: true, aberrant_fills: false });
}

#[test]
fn cancel_reject_text() {
    let r = CancelReject { cancel_id: 0xd3f9724478e64549abf690adfe0ab7fe, order_id: OrderId::nil(1), message: None };
    assert_eq!(r.to_error_string(), format!("cancel {SEQID} rejected: --"));
}
