//! The REST-facing shapes and their builders.

use fks_meta::api::{health_response, order_from_request, order_response, status_response,
    CreateOrderRequest};
use fks_meta::fixed::Fixed;

#[test]
fn test_status_response_words() {
    let up = status_response(true);
    assert!(up.connected);
    assert_eq!(up.mt5_status, "connected");
    let down = status_response(false);
    assert!(!down.connected);
    assert_eq!(down.mt5_status, "disconnected");
}

#[test]
fn test_health_response() {
    let h = health_response("0.1.0");
    assert_eq!(h.service, "fks_meta");
    assert_eq!(h.status, "healthy");
    assert_eq!(h.version, "0.1.0");
}

#[test]
fn test_order_response() {
    let r = order_response(555, "EURUSD".to_string());
    assert_eq!(r.ticket, 555);
    assert_eq!(r.symbol, "EURUSD");
    assert_eq!(r.status, "pending");
}

#[test]
fn test_order_from_request() {
    let req = CreateOrderRequest {
        symbol: "EURUSD".to_string(),
        order_type: "OP_SELL".to_string(),
        volume: Fixed::from_units(10000),
        price: Fixed::from_units(108500),
        stop_loss: None,
        take_profit: Some(Fixed::from_units(107000)),
        comment: Some("from the REST surface".to_string()),
    };
    let o = order_from_request(req);
    assert_eq!(o.ticket, 0);
    assert_eq!(o.symbol, "EURUSD");
    assert_eq!(o.order_type, "OP_SELL");
    assert_eq!(o.volume, Fixed::from_units(10000));
    assert_eq!(o.magic, 123456);
    assert!(o.expiration.is_none());
    assert_eq!(o.comment.as_deref(), Some("from the REST surface"));
}
