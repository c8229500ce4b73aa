//! The bridge decision core: the action table, the connection state
//! machine, and the envelope interpreters.

use fks_meta::bridge::{
    Envelope, MT5BridgeClient, MarketDataResponse, PositionData, ProbeOutcome, TicketData,
};
use fks_meta::config::Settings;
use fks_meta::errors::MetaError;
use fks_meta::fixed::Fixed;
use fks_meta::mapping::action_of_tag;
use fks_meta::models::MT5Order;

fn client() -> MT5BridgeClient {
    MT5BridgeClient::new(Settings::default(), "http://localhost:8006".to_string())
}

fn order_with_tag(tag: &str) -> MT5Order {
    MT5Order {
        ticket: 0,
        symbol: "EURUSD".to_string(),
        order_type: tag.to_string(),
        volume: Fixed::from_units(10000),
        price: Fixed::from_units(108500),
        stop_loss: None,
        take_profit: None,
        comment: None,
        magic: 123456,
        expiration: None,
    }
}

#[test]
fn test_action_table() {
    assert_eq!(action_of_tag("OP_BUY"), Some(0));
    assert_eq!(action_of_tag("OP_SELL"), Some(1));
    assert_eq!(action_of_tag("OP_BUYLIMIT"), Some(2));
    assert_eq!(action_of_tag("OP_SELLLIMIT"), Some(3));
    assert_eq!(action_of_tag("OP_BUYSTOP"), Some(4));
    assert_eq!(action_of_tag("OP_SELLSTOP"), Some(5));
    assert_eq!(action_of_tag("OP_CLOSE"), None);
    assert_eq!(action_of_tag(""), None);
}

#[test]
fn test_unknown_tag_is_mapping_error_without_payload() {
    let c = client();
    let r = c.prepare_order_request(&order_with_tag("OP_WEIRD"));
    match r {
        Err(MetaError::UnknownOrderType(t)) => assert_eq!(t, "OP_WEIRD"),
        other => panic!("expected a mapping error, got {:?}", other),
    }
}

#[test]
fn test_probe_outcomes_drive_tracker() {
    let mut c = client();
    assert!(!c.is_connected());

    assert!(c.apply_probe(&ProbeOutcome::Status(200)).is_ok());
    assert!(c.is_connected());
    assert!(c.health_check());

    let r = c.apply_probe(&ProbeOutcome::Status(503));
    assert!(!c.is_connected());
    match r {
        Err(MetaError::Connectivity(m)) => {
            assert_eq!(m, "MT5 bridge service returned status: 503")
        },
        other => panic!("expected a connectivity error, got {:?}", other),
    }

    assert!(c.apply_probe(&ProbeOutcome::Status(204)).is_ok());
    let r = c.apply_probe(&ProbeOutcome::Unreachable("connection refused".to_string()));
    assert!(!c.is_connected());
    match r {
        Err(MetaError::Connectivity(m)) => assert_eq!(m, "connection refused"),
        other => panic!("expected a connectivity error, got {:?}", other),
    }
}

#[test]
fn test_order_reply_success() {
    let c = client();
    let env = Envelope {
        success: true,
        data: Some(TicketData { ticket: 98765, retcode: Some(10009) }),
        error: None,
    };
    assert_eq!(c.interpret_order_reply(200, String::new(), Some(env)).unwrap(), 98765);
}

#[test]
fn test_order_reply_failures() {
    let c = client();

    let r = c.interpret_order_reply(502, "bad gateway".to_string(), None);
    match r {
        Err(MetaError::Transport { status, body }) => {
            assert_eq!(status, 502);
            assert_eq!(body, "bad gateway");
        },
        other => panic!("expected a transport error, got {:?}", other),
    }

    let r = c.interpret_order_reply(200, String::new(), None);
    assert_eq!(r, Err(MetaError::ParseFailed));

    let env = Envelope::<TicketData> { success: true, data: None, error: None };
    let r = c.interpret_order_reply(200, String::new(), Some(env));
    assert_eq!(r, Err(MetaError::MissingData));

    let env = Envelope::<TicketData> {
        success: false,
        data: None,
        error: Some("volume too small".to_string()),
    };
    let r = c.interpret_order_reply(200, String::new(), Some(env));
    assert_eq!(r, Err(MetaError::Logical("volume too small".to_string())));

    let env = Envelope::<TicketData> { success: false, data: None, error: None };
    let r = c.interpret_order_reply(200, String::new(), Some(env));
    assert_eq!(r, Err(MetaError::Logical("Unknown error".to_string())));
}

fn sample_position(symbol: &str, code: u32) -> PositionData {
    PositionData {
        ticket: 7,
        symbol: symbol.to_string(),
        position_type: code,
        volume: Fixed::from_units(20000),
        price_open: Fixed::from_units(108000),
        price_current: Fixed::from_units(108500),
        profit: Fixed::from_units(100000),
        swap: Fixed::from_units(0),
        commission: Fixed::new(true, 20000),
        stop_loss: None,
        take_profit: None,
        comment: None,
        magic: 123456,
        time_open: 1699113600,
    }
}

#[test]
fn test_positions_null_payload_is_empty_list() {
    let c = client();
    let env = Envelope::<Vec<PositionData>> { success: true, data: None, error: None };
    let r = c.interpret_positions_reply(Some(env)).unwrap();
    assert!(r.is_empty());
}

#[test]
fn test_positions_are_translated() {
    let c = client();
    let env = Envelope {
        success: true,
        data: Some(vec![sample_position("EURUSD", 0), sample_position("GBPUSD", 1)]),
        error: None,
    };
    let r = c.interpret_positions_reply(Some(env)).unwrap();
    assert_eq!(r.len(), 2);
    assert_eq!(r[0].symbol, "EURUSD");
    assert_eq!(r[0].position_type, "OP_BUY");
    assert_eq!(r[1].symbol, "GBPUSD");
    assert_eq!(r[1].position_type, "OP_SELL");
}

#[test]
fn test_positions_failure_paths() {
    let c = client();
    assert_eq!(
        c.interpret_positions_reply(None).unwrap_err(),
        MetaError::ParseFailed
    );
    let env = Envelope::<Vec<PositionData>> {
        success: false,
        data: None,
        error: Some("terminal gone".to_string()),
    };
    assert_eq!(
        c.interpret_positions_reply(Some(env)).unwrap_err(),
        MetaError::Logical("terminal gone".to_string())
    );
}

#[test]
fn test_query_failure_without_text_surfaces_empty_text() {
    let c = client();
    let env = Envelope::<Vec<PositionData>> { success: false, data: None, error: None };
    assert_eq!(
        c.interpret_positions_reply(Some(env)).unwrap_err(),
        MetaError::Logical(String::new())
    );
    let env = Envelope::<PositionData> { success: false, data: None, error: None };
    assert_eq!(
        c.interpret_position_reply(200, String::new(), Some(env)).unwrap_err(),
        MetaError::Logical(String::new())
    );
    let env = Envelope::<MarketDataResponse> { success: false, data: None, error: None };
    assert_eq!(
        c.interpret_market_reply(Some(env)).unwrap_err(),
        MetaError::Logical(String::new())
    );
}

#[test]
fn test_position_404_is_no_position() {
    let c = client();
    let r = c.interpret_position_reply(404, String::new(), None).unwrap();
    assert!(r.is_none());
}

#[test]
fn test_position_other_bad_status_is_error() {
    let c = client();
    let r = c.interpret_position_reply(500, "boom".to_string(), None);
    match r {
        Err(MetaError::Transport { status, body }) => {
            assert_eq!(status, 500);
            assert_eq!(body, "boom");
        },
        other => panic!("expected a transport error, got {:?}", other),
    }
}

#[test]
fn test_position_found() {
    let c = client();
    let env = Envelope { success: true, data: Some(sample_position("EURUSD", 1)), error: None };
    let r = c.interpret_position_reply(200, String::new(), Some(env)).unwrap();
    let p = r.unwrap();
    assert_eq!(p.symbol, "EURUSD");
    assert_eq!(p.position_type, "OP_SELL");
}

#[test]
fn test_market_reply() {
    let c = client();
    let env = Envelope {
        success: true,
        data: Some(MarketDataResponse {
            symbol: "EURUSD".to_string(),
            bid: Fixed::from_units(108490),
            ask: Fixed::from_units(108510),
            last: Fixed::from_units(108500),
            volume: Fixed::from_units(500000),
            time: 1699113600,
            spread: Fixed::from_units(20),
            digits: 5,
        }),
        error: None,
    };
    let q = c.interpret_market_reply(Some(env)).unwrap();
    assert_eq!(q.symbol, "EURUSD");
    assert_eq!(q.bid, Fixed::from_units(108490));
    assert_eq!(q.digits, 5);

    let empty = Envelope::<MarketDataResponse> { success: true, data: None, error: None };
    assert_eq!(c.interpret_market_reply(Some(empty)).unwrap_err(), MetaError::MissingData);
}

#[test]
fn test_cancel_and_close_replies() {
    let c = client();
    assert!(c.interpret_cancel_reply(7, 204).is_ok());
    assert_eq!(c.interpret_cancel_reply(7, 404).unwrap_err(), MetaError::CancelFailed(7));
    assert!(c.interpret_close_reply(9, 200).is_ok());
    assert_eq!(c.interpret_close_reply(9, 500).unwrap_err(), MetaError::CloseFailed(9));
    assert_eq!(MetaError::CancelFailed(7).describe(), "Failed to cancel order: 7");
    assert_eq!(MetaError::CloseFailed(9).describe(), "Failed to close position: 9");
}

#[test]
fn test_order_fetch_reply() {
    let c = client();
    let env = Envelope { success: true, data: Some(order_with_tag("OP_SELL")), error: None };
    let o = c.interpret_order_fetch_reply(200, String::new(), Some(env)).unwrap();
    assert_eq!(o.order_type, "OP_SELL");
    assert_eq!(o.symbol, "EURUSD");
}

#[test]
fn test_quoted_symbol_is_escaped_and_sent() {
    let c = client();
    let mut order = order_with_tag("OP_BUY");
    order.symbol = "EUR\"USD".to_string();
    let payload = c.prepare_order_request(&order).unwrap();
    let back = fks_meta::wire::decode_wire_order(&payload).unwrap();
    let expected: Vec<char> = "EUR\"USD".chars().collect();
    assert_eq!(back.symbol, expected);
}

#[test]
fn test_denormal_price_is_normalized() {
    let c = client();
    let mut order = order_with_tag("OP_BUY");
    order.price = Fixed { neg: true, units: 0 };
    let payload = c.prepare_order_request(&order).unwrap();
    let back = fks_meta::wire::decode_wire_order(&payload).unwrap();
    assert_eq!(back.price, Fixed::from_units(0));
}

#[test]
fn test_error_descriptions() {
    let e = MetaError::Transport { status: 500, body: "oops".to_string() };
    assert_eq!(e.describe(), "Bridge returned error: 500 - oops");
    assert_eq!(
        MetaError::UnknownOrderType("OP_X".to_string()).describe(),
        "Unknown order type: OP_X"
    );
    assert_eq!(MetaError::NotInitialized.describe(), "Plugin not initialized");
    assert_eq!(
        MetaError::Connectivity("no route".to_string()).describe(),
        "Failed to reach MT5 bridge service: no route"
    );
    assert_eq!(MetaError::UnsupportedOrderKind.describe(), "Unsupported order type");
    assert_eq!(MetaError::ParseFailed.describe(), "Failed to parse bridge response");
    assert_eq!(MetaError::MissingData.describe(), "Bridge returned success but no data");
    assert_eq!(
        MetaError::Logical("rejected".to_string()).describe(),
        "Bridge reported failure: rejected"
    );
}

#[test]
fn test_fixed_values() {
    assert!(Fixed::from_units(0).is_zero());
    assert!(!Fixed::from_units(1).is_zero());
    assert_eq!(Fixed::new(true, 0), Fixed::from_units(0));
    assert_eq!(Fixed::zero(), Fixed::from_units(0));
}
