//! The plugin adapter: the state machine, the pair table, and the
//! folding of downstream failures into execution results.

use fks_meta::bridge::{Envelope, ProbeOutcome, TicketData};
use fks_meta::config::Settings;
use fks_meta::errors::MetaError;
use fks_meta::fixed::Fixed;
use fks_meta::mapping::{pair_tag, OrderSide, OrderType};
use fks_meta::models::MT5MarketData;
use fks_meta::plugin::{MT5Plugin, Order};

fn plugin_order(side: OrderSide, kind: OrderType) -> Order {
    Order {
        symbol: "EURUSD".to_string(),
        side,
        order_type: kind,
        quantity: Fixed::from_units(100000),
        price: Some(Fixed::from_units(108500)),
        stop_loss: None,
        take_profit: None,
        confidence: Fixed::from_units(80000),
    }
}

fn ready_plugin() -> MT5Plugin {
    let mut p = MT5Plugin::new("mt5");
    p.init(Settings::default(), "http://localhost:8006".to_string());
    p
}

#[test]
fn test_pair_table() {
    assert_eq!(pair_tag(OrderSide::Buy, OrderType::Market).unwrap(), "OP_BUY");
    assert_eq!(pair_tag(OrderSide::Sell, OrderType::Market).unwrap(), "OP_SELL");
    assert_eq!(pair_tag(OrderSide::Buy, OrderType::Limit).unwrap(), "OP_BUYLIMIT");
    assert_eq!(pair_tag(OrderSide::Sell, OrderType::Limit).unwrap(), "OP_SELLLIMIT");
    assert_eq!(pair_tag(OrderSide::Buy, OrderType::Stop).unwrap(), "OP_BUYSTOP");
    assert_eq!(pair_tag(OrderSide::Sell, OrderType::Stop).unwrap(), "OP_SELLSTOP");
    assert!(pair_tag(OrderSide::Buy, OrderType::StopLimit).is_none());
    assert!(pair_tag(OrderSide::Sell, OrderType::TakeProfit).is_none());
    assert!(pair_tag(OrderSide::Buy, OrderType::StopLoss).is_none());
}

#[test]
fn test_health_check_before_init_is_false() {
    let p = MT5Plugin::new("mt5");
    assert!(!p.health_check());
}

#[test]
fn test_health_check_after_init_tracks_connection() {
    let mut p = ready_plugin();
    assert!(!p.health_check());
    let mut c = p.take_client().unwrap();
    c.apply_probe(&ProbeOutcome::Status(200)).unwrap();
    p.restore_client(c);
    assert!(p.health_check());
}

#[test]
fn test_uninitialized_order_is_refused() {
    let p = MT5Plugin::new("mt5");
    let r = p.prepare_order(&plugin_order(OrderSide::Buy, OrderType::Market));
    assert_eq!(r.unwrap_err(), MetaError::NotInitialized);
}

#[test]
fn test_unsupported_pair_is_an_error() {
    let p = ready_plugin();
    let r = p.prepare_order(&plugin_order(OrderSide::Buy, OrderType::StopLimit));
    assert_eq!(r.unwrap_err(), MetaError::UnsupportedOrderKind);
}

#[test]
fn test_supported_pair_translates() {
    let p = ready_plugin();
    let m = p.prepare_order(&plugin_order(OrderSide::Sell, OrderType::Stop)).unwrap();
    assert_eq!(m.ticket, 0);
    assert_eq!(m.symbol, "EURUSD");
    assert_eq!(m.order_type, "OP_SELLSTOP");
    assert_eq!(m.volume, Fixed::from_units(100000));
    assert_eq!(m.price, Fixed::from_units(108500));
    assert_eq!(m.comment.as_deref(), Some("FKS order (confidence: 0.8)"));
    assert_eq!(m.magic, 123456);
    assert!(m.expiration.is_none());
}

#[test]
fn test_failed_transport_becomes_failed_result_not_error() {
    let p = ready_plugin();
    let order = plugin_order(OrderSide::Buy, OrderType::Market);
    let outcome: Result<u64, MetaError> =
        Err(MetaError::Transport { status: 502, body: "bad gateway".to_string() });
    let r = p.execution_result(&order, &outcome, 1699113600);
    assert!(!r.success);
    assert!(r.order_id.is_none());
    assert_eq!(r.filled_quantity, Fixed::from_units(0));
    assert_eq!(r.average_price, Fixed::from_units(0));
    assert_eq!(r.error.as_deref(), Some("Bridge returned error: 502 - bad gateway"));
    assert_eq!(r.timestamp, 1699113600);
}

#[test]
fn test_execute_order_end_to_end() {
    let mut p = MT5Plugin::new("mt5");
    p.init(Settings::default(), "http://localhost:8006".to_string());
    let order = plugin_order(OrderSide::Buy, OrderType::Market);

    // the adapter translates the order
    let m = p.prepare_order(&order).unwrap();
    assert_eq!(m.order_type, "OP_BUY");

    // the client connects and builds the wire payload
    let mut c = p.take_client().unwrap();
    c.apply_probe(&ProbeOutcome::Status(200)).unwrap();
    assert!(c.is_connected());
    let payload = c.prepare_order_request(&m).unwrap();
    assert!(!payload.is_empty());

    // the transport answers with a successful envelope naming ticket 555
    let env = Envelope {
        success: true,
        data: Some(TicketData { ticket: 555, retcode: Some(10009) }),
        error: None,
    };
    let outcome = c.interpret_order_reply(200, String::new(), Some(env));
    p.restore_client(c);

    let r = p.execution_result(&order, &outcome, 1699113600);
    assert!(r.success);
    assert_eq!(r.order_id.as_deref(), Some("555"));
    assert_eq!(r.filled_quantity, Fixed::from_units(100000));
    assert_eq!(r.average_price, Fixed::from_units(108500));
    assert!(r.error.is_none());
}

#[test]
fn test_reshape_market_data() {
    let p = ready_plugin();
    let q = MT5MarketData {
        symbol: "EURUSD".to_string(),
        bid: Fixed::from_units(108490),
        ask: Fixed::from_units(108510),
        last: Fixed::from_units(108500),
        volume: Fixed::from_units(500000),
        time: 1699113600,
        spread: Fixed::from_units(20),
        digits: 5,
    };
    let d = p.reshape_market_data(q);
    assert_eq!(d.symbol, "EURUSD");
    assert_eq!(d.timestamp, 1699113600);
    assert_eq!(d.extra.spread, Fixed::from_units(20));
    assert_eq!(d.extra.digits, 5);
}

#[test]
fn test_plugin_name() {
    let p = MT5Plugin::new("mt5");
    assert_eq!(p.name(), "mt5");
    assert_eq!(fks_meta::PLUGIN_NAME, "mt5");
}
