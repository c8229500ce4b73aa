//! The shared data model and the wire codec on concrete values.

use fks_meta::bridge::{MT5BridgeClient, PositionData};
use fks_meta::config::Settings;
use fks_meta::fixed::Fixed;
use fks_meta::models::{MT5Order, MT5Position};
use fks_meta::wire::{decode_wire_order, encode_wire_order, WireOrder};

fn chars_of(s: &str) -> Vec<char> {
    s.chars().collect()
}

fn text_of(v: &[char]) -> String {
    v.iter().collect()
}

fn test_order() -> MT5Order {
    MT5Order {
        ticket: 12345,
        symbol: "EURUSD".to_string(),
        order_type: "OP_BUY".to_string(),
        volume: Fixed::from_units(10000),
        price: Fixed::from_units(108500),
        stop_loss: Some(Fixed::from_units(108000)),
        take_profit: Some(Fixed::from_units(109000)),
        comment: Some("Test order".to_string()),
        magic: 123456,
        expiration: None,
    }
}

#[test]
fn test_mt5_order_serialization() {
    let order = test_order();
    let client = MT5BridgeClient::new(Settings::default(), "http://localhost:8006".to_string());
    let payload = client.prepare_order_request(&order).unwrap();
    let deserialized = decode_wire_order(&payload).unwrap();

    assert_eq!(deserialized.symbol, chars_of("EURUSD"));
    assert_eq!(deserialized.volume, Fixed::from_units(10000));
}

#[test]
fn test_mt5_position_serialization() {
    let data = PositionData {
        ticket: 12345,
        symbol: "EURUSD".to_string(),
        position_type: 0,
        volume: Fixed::from_units(10000),
        price_open: Fixed::from_units(108500),
        price_current: Fixed::from_units(108600),
        profit: Fixed::from_units(1000000),
        swap: Fixed::from_units(0),
        commission: Fixed::new(true, 50000),
        stop_loss: Some(Fixed::from_units(108000)),
        take_profit: Some(Fixed::from_units(109000)),
        comment: Some("Test position".to_string()),
        magic: 123456,
        time_open: 1699113600,
    };
    let client = MT5BridgeClient::new(Settings::default(), "http://localhost:8006".to_string());
    let position: MT5Position = client.position_data_to_model(data);

    assert_eq!(position.symbol, "EURUSD");
    assert_eq!(position.profit, Fixed::from_units(1000000));
    assert_eq!(position.position_type, "OP_BUY");
    assert_eq!(position.time_open, 1699113600);
}

#[test]
fn test_wire_text_exact() {
    let order = test_order();
    let client = MT5BridgeClient::new(Settings::default(), "http://localhost:8006".to_string());
    let payload = client.prepare_order_request(&order).unwrap();
    assert_eq!(
        text_of(&payload),
        "{\"symbol\":\"EURUSD\",\"action\":0,\"volume\":0.10000,\"price\":1.08500,\
         \"stop_loss\":1.08000,\"take_profit\":1.09000,\"comment\":\"Test order\",\
         \"magic\":123456}"
    );
}

#[test]
fn test_wire_round_trip_all_fields() {
    let w = WireOrder {
        symbol: chars_of("XAUUSD"),
        action: 5,
        volume: Fixed::from_units(250000),
        price: Fixed::new(true, 12345),
        stop_loss: None,
        take_profit: Some(Fixed::from_units(7)),
        comment: None,
        magic: 42,
    };
    let payload = encode_wire_order(&w).unwrap();
    let back = decode_wire_order(&payload).unwrap();
    assert_eq!(back.symbol, chars_of("XAUUSD"));
    assert_eq!(back.action, 5);
    assert_eq!(back.volume, Fixed::from_units(250000));
    assert_eq!(back.price, Fixed::new(true, 12345));
    assert_eq!(back.stop_loss, None);
    assert_eq!(back.take_profit, Some(Fixed::from_units(7)));
    assert_eq!(back.comment, None);
    assert_eq!(back.magic, 42);
}

#[test]
fn test_escaped_text_round_trips() {
    let w = WireOrder {
        symbol: chars_of("EUR\"USD"),
        action: 0,
        volume: Fixed::from_units(10000),
        price: Fixed::from_units(108500),
        stop_loss: None,
        take_profit: None,
        comment: Some(chars_of("a\\b\nc")),
        magic: 1,
    };
    let payload = encode_wire_order(&w).unwrap();
    let back = decode_wire_order(&payload).unwrap();
    assert_eq!(back.symbol, chars_of("EUR\"USD"));
    assert_eq!(back.comment, Some(chars_of("a\\b\nc")));
}

#[test]
fn test_escape_exact_text() {
    let w = WireOrder {
        symbol: chars_of("A\"B\\C"),
        action: 0,
        volume: Fixed::from_units(10000),
        price: Fixed::from_units(108500),
        stop_loss: None,
        take_profit: None,
        comment: Some(chars_of("\n")),
        magic: 1,
    };
    let payload = encode_wire_order(&w).unwrap();
    assert_eq!(
        text_of(&payload),
        "{\"symbol\":\"A\\\"B\\\\C\",\"action\":0,\"volume\":0.10000,\"price\":1.08500,\
         \"stop_loss\":null,\"take_profit\":null,\"comment\":\"\\u000a\",\"magic\":1}"
    );
}

#[test]
fn test_encode_refuses_denormal_number() {
    let w = WireOrder {
        symbol: chars_of("EURUSD"),
        action: 0,
        volume: Fixed::from_units(10000),
        price: Fixed { neg: true, units: 0 },
        stop_loss: None,
        take_profit: None,
        comment: None,
        magic: 1,
    };
    assert!(encode_wire_order(&w).is_none());
}

#[test]
fn test_decode_rejects_garbage() {
    assert!(decode_wire_order(&chars_of("not json")).is_none());
    assert!(decode_wire_order(&chars_of("")).is_none());
    assert!(decode_wire_order(&chars_of("{\"symbol\":\"X\",\"action\":0}")).is_none());
}

#[test]
fn test_fixed_display() {
    assert_eq!(Fixed::from_units(80000).display_string(), "0.8");
    assert_eq!(Fixed::from_units(108500).display_string(), "1.085");
    assert_eq!(Fixed::from_units(100000).display_string(), "1");
    assert_eq!(Fixed::from_units(0).display_string(), "0");
    assert_eq!(Fixed::new(true, 50000).display_string(), "-0.5");
    assert_eq!(Fixed::from_units(1).display_string(), "0.00001");
}

#[test]
fn test_settings_default() {
    let s = Settings::default();
    assert_eq!(s.service_name, "fks_meta");
    assert_eq!(s.service_port, 8005);
    assert_eq!(s.mt5_timeout_ms, 5000);
    assert_eq!(s.mt5_retry_attempts, 3);
    assert_eq!(s.mt5_retry_delay_ms, 1000);
    assert!(!s.mt5_testnet);
    assert!(s.mt5_bridge_url.is_none());
}
