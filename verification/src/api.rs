//! The REST surface's request and response shapes, and the small
//! decisions behind them. Route wiring and HTTP serving are the caller's
//! business; the shapes and their contents are decided here.

use vstd::prelude::*;
use crate::fixed::Fixed;
use crate::models::MT5Order;

verus! {

/// The `/health` reply.
#[derive(Clone, Debug)]
pub struct HealthResponse {
    pub service: String,
    pub status: String,
    pub version: String,
}

/// The `/status` reply: the tracked connectivity, twice over.
#[derive(Clone, Debug)]
pub struct StatusResponse {
    pub connected: bool,
    pub mt5_status: String,
}

/// The body of an order-creation request.
#[derive(Clone, Debug)]
pub struct CreateOrderRequest {
    pub symbol: String,
    pub order_type: String,
    pub volume: Fixed,
    pub price: Fixed,
    pub stop_loss: Option<Fixed>,
    pub take_profit: Option<Fixed>,
    pub comment: Option<String>,
}

/// The reply to a created order.
#[derive(Clone, Debug)]
pub struct OrderResponse {
    pub ticket: u64,
    pub symbol: String,
    pub status: String,
}

/// The strategy tag stamped on orders created over the REST surface.
pub const REST_MAGIC: u32 = 123456;

/// A service that can answer is healthy by definition of this endpoint.
pub fn health_response(version: &str) -> (r: HealthResponse)
    ensures
        r.service@ == "fks_meta"@,
        r.status@ == "healthy"@,
        r.version@ == version@,
{
    HealthResponse {
        service: String::from_str("fks_meta"),
        status: String::from_str("healthy"),
        version: String::from_str(version),
    }
}

/// The connectivity summary: the flag, and its word.
pub fn status_response(connected: bool) -> (r: StatusResponse)
    ensures
        r.connected == connected,
        connected ==> r.mt5_status@ == "connected"@,
        !connected ==> r.mt5_status@ == "disconnected"@,
{
    StatusResponse {
        connected,
        mt5_status: if connected {
            String::from_str("connected")
        } else {
            String::from_str("disconnected")
        },
    }
}

/// A freshly created order is reported as pending under its new ticket.
pub fn order_response(ticket: u64, symbol: String) -> (r: OrderResponse)
    ensures
        r.ticket == ticket,
        r.symbol@ == symbol@,
        r.status@ == "pending"@,
{
    OrderResponse { ticket, symbol, status: String::from_str("pending") }
}

/// Turn a creation request into a bridge order: no ticket yet, the REST
/// strategy tag, and no expiration.
pub fn order_from_request(req: CreateOrderRequest) -> (r: MT5Order)
    ensures
        r.ticket == 0,
        r.symbol@ == req.symbol@,
        r.order_type@ == req.order_type@,
        r.volume == req.volume,
        r.price == req.price,
        r.stop_loss == req.stop_loss,
        r.take_profit == req.take_profit,
        ({
            match (req.comment, r.comment) {
                (Some(a), Some(b)) => a@ == b@,
                (None, None) => true,
                _ => false,
            }
        }),
        r.magic == REST_MAGIC,
        r.expiration is None,
{
    MT5Order {
        ticket: 0,
        symbol: req.symbol,
        order_type: req.order_type,
        volume: req.volume,
        price: req.price,
        stop_loss: req.stop_loss,
        take_profit: req.take_profit,
        comment: req.comment,
        magic: REST_MAGIC,
        expiration: None,
    }
}

} // verus!
