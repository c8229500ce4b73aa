//! The bridge transport's decision core.
//!
//! The remote bridge process is reached over HTTP by the caller; this
//! module owns everything that can be decided without the network: the
//! connection tracker, what a probe outcome does to it, which wire payload
//! an order becomes (or why none), and what each bridge reply means. The
//! protocol is the original one: an order may only be sent while the
//! tracker says connected; a disconnected client gets exactly one probe
//! first, and a failed probe aborts the order without sending it.

use vstd::prelude::*;
use crate::config::Settings;
use crate::errors::MetaError;
use crate::fixed::{Fixed, spec_fixed_normal};
use crate::mapping::{spec_action_of, action_of_tag, spec_position_tag, position_tag_of_code};
use crate::models::{MT5Order, MT5Position, MT5MarketData};
use crate::text::{spec_dec, push_dec_string, string_chars};
use crate::wire::{WireOrder, WireOrderView, spec_encode, encode_wire_order};

verus! {

/// The shared connected/disconnected flag. Only the bridge client writes
/// it, through `set`; everyone else reads it through `get`.
pub struct ConnectionTracker {
    connected: bool,
}

impl ConnectionTracker {
    pub closed spec fn spec_connected(&self) -> bool {
        self.connected
    }

    /// A fresh tracker starts disconnected.
    pub fn new() -> (r: ConnectionTracker)
        ensures
            !r.spec_connected(),
    {
        ConnectionTracker { connected: false }
    }

    /// Last writer wins; no other guarantee is offered or needed.
    pub fn set(&mut self, value: bool)
        ensures
            final(self).spec_connected() == value,
    {
        self.connected = value;
    }

    pub fn get(&self) -> (r: bool)
        ensures
            r == self.spec_connected(),
    {
        self.connected
    }
}

/// What a liveness probe of the bridge endpoint came back with: either
/// the endpoint could not be reached at all, or it answered with a status.
pub enum ProbeOutcome {
    Unreachable(String),
    Status(u16),
}

/// A probe succeeded exactly when it answered with a 2xx status.
pub open spec fn spec_probe_ok(o: ProbeOutcome) -> bool {
    match o {
        ProbeOutcome::Status(s) => 200 <= s < 300,
        ProbeOutcome::Unreachable(_) => false,
    }
}

/// The failure text of a probe that did not succeed.
pub open spec fn spec_probe_failure(o: ProbeOutcome) -> Seq<char> {
    match o {
        ProbeOutcome::Unreachable(m) => m@,
        ProbeOutcome::Status(s) => "MT5 bridge service returned status: "@ + spec_dec(s as nat),
    }
}

/// The success/data/error envelope every bridge reply is wrapped in.
pub struct Envelope<T> {
    pub success: bool,
    pub data: Option<T>,
    pub error: Option<String>,
}

/// The payload of an order-creation reply.
pub struct TicketData {
    pub ticket: u64,
    pub retcode: Option<u32>,
}

/// A position as the bridge reports it: the direction is a numeric code.
pub struct PositionData {
    pub ticket: u64,
    pub symbol: String,
    pub position_type: u32,
    pub volume: Fixed,
    pub price_open: Fixed,
    pub price_current: Fixed,
    pub profit: Fixed,
    pub swap: Fixed,
    pub commission: Fixed,
    pub stop_loss: Option<Fixed>,
    pub take_profit: Option<Fixed>,
    pub comment: Option<String>,
    pub magic: u32,
    pub time_open: i64,
}

/// A market snapshot as the bridge reports it.
pub struct MarketDataResponse {
    pub symbol: String,
    pub bid: Fixed,
    pub ask: Fixed,
    pub last: Fixed,
    pub volume: Fixed,
    pub time: i64,
    pub spread: Fixed,
    pub digits: u32,
}

/// The remote error text of a failed order-execution envelope, or its
/// stand-in.
pub open spec fn spec_error_text(o: Option<String>) -> Seq<char> {
    match o {
        Some(e) => e@,
        None => "Unknown error"@,
    }
}

/// The remote error text of a failed query envelope; queries surface an
/// empty text when the envelope carries none.
pub open spec fn spec_error_text_or_empty(o: Option<String>) -> Seq<char> {
    match o {
        Some(e) => e@,
        None => Seq::<char>::empty(),
    }
}

pub open spec fn spec_status_ok(status: u16) -> bool {
    200 <= status < 300
}

/// The wire view of an order under a given action code, its numbers in
/// canonical form.
pub open spec fn spec_wire_view_normal(o: MT5Order, action: u32) -> WireOrderView {
    WireOrderView {
        symbol: o.symbol@,
        action,
        volume: spec_fixed_normal(o.volume),
        price: spec_fixed_normal(o.price),
        stop_loss: match o.stop_loss {
            Some(f) => Some(spec_fixed_normal(f)),
            None => None,
        },
        take_profit: match o.take_profit {
            Some(f) => Some(spec_fixed_normal(f)),
            None => None,
        },
        comment: match o.comment {
            Some(c) => Some(c@),
            None => None,
        },
        magic: o.magic,
    }
}

/// Two optional strings with the same characters.
pub open spec fn spec_opt_str_eq(a: Option<String>, b: Option<String>) -> bool {
    match (a, b) {
        (Some(x), Some(y)) => x@ == y@,
        (None, None) => true,
        _ => false,
    }
}

/// A bridge position translated into the domain model: same fields, the
/// numeric direction code turned into its tag.
pub open spec fn spec_position_model(d: PositionData, p: MT5Position) -> bool {
    &&& p.ticket == d.ticket
    &&& p.symbol@ == d.symbol@
    &&& p.position_type@ == spec_position_tag(d.position_type)
    &&& p.volume == d.volume
    &&& p.price_open == d.price_open
    &&& p.price_current == d.price_current
    &&& p.profit == d.profit
    &&& p.swap == d.swap
    &&& p.commission == d.commission
    &&& p.stop_loss == d.stop_loss
    &&& p.take_profit == d.take_profit
    &&& spec_opt_str_eq(d.comment, p.comment)
    &&& p.magic == d.magic
    &&& p.time_open == d.time_open
}

/// The decision core of the bridge transport. It owns the connection
/// tracker; the caller performs the HTTP calls and hands every outcome
/// back in as plain values.
pub struct MT5BridgeClient {
    pub settings: Settings,
    pub bridge_url: String,
    pub tracker: ConnectionTracker,
}

impl MT5BridgeClient {
    pub closed spec fn spec_connected(&self) -> bool {
        self.tracker.spec_connected()
    }

    /// A new client starts disconnected; the first probe decides.
    pub fn new(settings: Settings, bridge_url: String) -> (r: MT5BridgeClient)
        ensures
            r.settings == settings,
            r.bridge_url == bridge_url,
            !r.spec_connected(),
    {
        MT5BridgeClient { settings, bridge_url, tracker: ConnectionTracker::new() }
    }

    /// The tracked state, without probing.
    pub fn is_connected(&self) -> (r: bool)
        ensures
            r == self.spec_connected(),
    {
        self.tracker.get()
    }

    /// Health is the tracked state.
    pub fn health_check(&self) -> (r: bool)
        ensures
            r == self.spec_connected(),
    {
        self.is_connected()
    }

    /// Record what a liveness probe came back with: a 2xx status connects,
    /// anything else disconnects and is an error naming the cause.
    pub fn apply_probe(&mut self, outcome: &ProbeOutcome) -> (r: Result<(), MetaError>)
        ensures
            final(self).spec_connected() == spec_probe_ok(*outcome),
            final(self).settings == old(self).settings,
            final(self).bridge_url == old(self).bridge_url,
            r is Ok <==> spec_probe_ok(*outcome),
            (r matches Err(e) ==> (e matches MetaError::Connectivity(m) && m@ == spec_probe_failure(
                *outcome,
            ))),
    {
        match outcome {
            ProbeOutcome::Status(s) => {
                if 200 <= *s && *s < 300 {
                    self.tracker.set(true);
                    Ok(())
                } else {
                    self.tracker.set(false);
                    let mut m = String::new();
                    m.append("MT5 bridge service returned status: ");
                    push_dec_string(&mut m, *s as u64);
                    Err(MetaError::Connectivity(m))
                }
            },
            ProbeOutcome::Unreachable(cause) => {
                self.tracker.set(false);
                Err(MetaError::Connectivity(cause.clone()))
            },
        }
    }

    /// Turn an order into its wire payload. A tag outside the closed set
    /// is a mapping error, raised here, before anything could be sent.
    /// Every order under a tag of the set yields a payload: strings are
    /// escaped on the wire and numbers written in canonical form.
    pub fn prepare_order_request(&self, order: &MT5Order) -> (r: Result<Vec<char>, MetaError>)
        ensures
            ({
                match spec_action_of(order.order_type@) {
                    None => (r matches Err(e) && e matches MetaError::UnknownOrderType(t)
                        && t@ == order.order_type@),
                    Some(a) => (r matches Ok(p) && p@ == spec_encode(
                        spec_wire_view_normal(*order, a),
                    )),
                }
            }),
    {
        match action_of_tag(order.order_type.as_str()) {
            None => Err(MetaError::UnknownOrderType(order.order_type.clone())),
            Some(action) => {
                let comment: Option<Vec<char>> = match &order.comment {
                    Some(c) => Some(string_chars(c.as_str())),
                    None => None,
                };
                let w = WireOrder {
                    symbol: string_chars(order.symbol.as_str()),
                    action,
                    volume: Fixed::new(order.volume.neg, order.volume.units),
                    price: Fixed::new(order.price.neg, order.price.units),
                    stop_loss: match order.stop_loss {
                        Some(f) => Some(Fixed::new(f.neg, f.units)),
                        None => None,
                    },
                    take_profit: match order.take_profit {
                        Some(f) => Some(Fixed::new(f.neg, f.units)),
                        None => None,
                    },
                    comment,
                    magic: order.magic,
                };
                proof {
                    assert(w@ == spec_wire_view_normal(*order, action));
                    assert(w@.wf());
                }
                Ok(encode_wire_order(&w).unwrap())
            },
        }
    }

    /// What an order-creation reply means: a non-2xx status is a transport
    /// error carrying status and body; a body that is no envelope cannot be
    /// parsed; a failing envelope is a logical error with the remote text;
    /// and a successful envelope must carry the assigned ticket.
    pub fn interpret_order_reply(
        &self,
        status: u16,
        body: String,
        envelope: Option<Envelope<TicketData>>,
    ) -> (r: Result<u64, MetaError>)
        ensures
            ({
                if !spec_status_ok(status) {
                    r matches Err(e) && e matches MetaError::Transport { status: st, body: b }
                        && st == status && b@ == body@
                } else {
                    match envelope {
                        None => r == Err::<u64, MetaError>(MetaError::ParseFailed),
                        Some(env) => {
                            if env.success {
                                match env.data {
                                    Some(td) => r == Ok::<u64, MetaError>(td.ticket),
                                    None => r == Err::<u64, MetaError>(MetaError::MissingData),
                                }
                            } else {
                                r matches Err(e) && e matches MetaError::Logical(m) && m@
                                    == spec_error_text(env.error)
                            }
                        },
                    }
                }
            }),
    {
        if !(200 <= status && status < 300) {
            return Err(MetaError::Transport { status, body });
        }
        match envelope {
            None => Err(MetaError::ParseFailed),
            Some(env) => {
                if env.success {
                    match env.data {
                        Some(td) => Ok(td.ticket),
                        None => Err(MetaError::MissingData),
                    }
                } else {
                    match env.error {
                        Some(m) => Err(MetaError::Logical(m)),
                        None => Err(MetaError::Logical(String::from_str("Unknown error"))),
                    }
                }
            },
        }
    }

    /// What a cancel reply means: any 2xx status is success, anything
    /// else fails naming the ticket; the reply body is not consulted.
    pub fn interpret_cancel_reply(&self, ticket: u64, status: u16) -> (r: Result<(), MetaError>)
        ensures
            spec_status_ok(status) ==> r is Ok,
            !spec_status_ok(status) ==> r == Err::<(), MetaError>(MetaError::CancelFailed(ticket)),
    {
        if 200 <= status && status < 300 {
            Ok(())
        } else {
            Err(MetaError::CancelFailed(ticket))
        }
    }

    /// What a close reply means: any 2xx status is success, anything
    /// else fails naming the ticket; the reply body is not consulted.
    pub fn interpret_close_reply(&self, ticket: u64, status: u16) -> (r: Result<(), MetaError>)
        ensures
            spec_status_ok(status) ==> r is Ok,
            !spec_status_ok(status) ==> r == Err::<(), MetaError>(MetaError::CloseFailed(ticket)),
    {
        if 200 <= status && status < 300 {
            Ok(())
        } else {
            Err(MetaError::CloseFailed(ticket))
        }
    }

    /// Translate one bridge position into the domain model.
    pub fn position_data_to_model(&self, data: PositionData) -> (r: MT5Position)
        ensures
            spec_position_model(data, r),
    {
        let tag = position_tag_of_code(data.position_type);
        MT5Position {
            ticket: data.ticket,
            symbol: data.symbol,
            position_type: tag,
            volume: data.volume,
            price_open: data.price_open,
            price_current: data.price_current,
            profit: data.profit,
            swap: data.swap,
            commission: data.commission,
            stop_loss: data.stop_loss,
            take_profit: data.take_profit,
            comment: data.comment,
            magic: data.magic,
            time_open: data.time_open,
        }
    }

    /// What a positions-list reply means. A successful envelope with no
    /// payload at all is the empty list, not an error.
    pub fn interpret_positions_reply(
        &self,
        envelope: Option<Envelope<Vec<PositionData>>>,
    ) -> (r: Result<Vec<MT5Position>, MetaError>)
        ensures
            ({
                match envelope {
                    None => r == Err::<Vec<MT5Position>, MetaError>(MetaError::ParseFailed),
                    Some(env) => {
                        if env.success {
                            match env.data {
                                Some(list) => (r matches Ok(v) && v@.len() == list@.len()
                                    && (forall|i: int|
                                        0 <= i < list@.len() ==> spec_position_model(
                                            list@[i],
                                            #[trigger] v@[i],
                                        ))),
                                None => r matches Ok(v) && v@.len() == 0,
                            }
                        } else {
                            r matches Err(e) && e matches MetaError::Logical(m) && m@
                                == spec_error_text_or_empty(env.error)
                        }
                    },
                }
            }),
    {
        match envelope {
            None => Err(MetaError::ParseFailed),
            Some(env) => {
                if env.success {
                    match env.data {
                        Some(list) => {
                            let ghost orig = list@;
                            let mut rest = list;
                            let mut out: Vec<MT5Position> = Vec::new();
                            while rest.len() > 0
                                invariant
                                    out@.len() + rest@.len() == orig.len(),
                                    rest@ == orig.skip(out@.len() as int),
                                    forall|i: int|
                                        0 <= i < out@.len() ==> spec_position_model(
                                            orig[i],
                                            #[trigger] out@[i],
                                        ),
                                decreases rest@.len(),
                            {
                                let d = rest.remove(0);
                                proof {
                                    assert(orig.skip(out@.len() as int)[0] == orig[out@.len() as int]);
                                    assert(rest@ =~= orig.skip((out@.len() + 1) as int));
                                }
                                let p = self.position_data_to_model(d);
                                out.push(p);
                            }
                            Ok(out)
                        },
                        None => Ok(Vec::new()),
                    }
                } else {
                    match env.error {
                        Some(m) => Err(MetaError::Logical(m)),
                        None => Err(MetaError::Logical(String::new())),
                    }
                }
            },
        }
    }

    /// What a single-position reply means. A 404 status is "no position",
    /// which is an answer, not an error; any other non-success status is a
    /// transport error.
    pub fn interpret_position_reply(
        &self,
        status: u16,
        body: String,
        envelope: Option<Envelope<PositionData>>,
    ) -> (r: Result<Option<MT5Position>, MetaError>)
        ensures
            status == 404 ==> r == Ok::<Option<MT5Position>, MetaError>(None),
            (status != 404 && !spec_status_ok(status)) ==> (r matches Err(e)
                && e matches MetaError::Transport { status: st, body: b } && st == status && b@
                == body@),
            (status != 404 && spec_status_ok(status)) ==> ({
                match envelope {
                    None => r == Err::<Option<MT5Position>, MetaError>(MetaError::ParseFailed),
                    Some(env) => {
                        if env.success {
                            match env.data {
                                Some(d) => (r matches Ok(o) && o matches Some(p)
                                    && spec_position_model(d, p)),
                                None => r == Ok::<Option<MT5Position>, MetaError>(None),
                            }
                        } else {
                            r matches Err(e) && e matches MetaError::Logical(m) && m@
                                == spec_error_text_or_empty(env.error)
                        }
                    },
                }
            }),
    {
        if status == 404 {
            return Ok(None);
        }
        if !(200 <= status && status < 300) {
            return Err(MetaError::Transport { status, body });
        }
        match envelope {
            None => Err(MetaError::ParseFailed),
            Some(env) => {
                if env.success {
                    match env.data {
                        Some(d) => Ok(Some(self.position_data_to_model(d))),
                        None => Ok(None),
                    }
                } else {
                    match env.error {
                        Some(m) => Err(MetaError::Logical(m)),
                        None => Err(MetaError::Logical(String::new())),
                    }
                }
            },
        }
    }

    /// What a market-data reply means: the snapshot is relayed field for
    /// field; success without a payload is an error here, because a quote
    /// was asked for.
    pub fn interpret_market_reply(
        &self,
        envelope: Option<Envelope<MarketDataResponse>>,
    ) -> (r: Result<MT5MarketData, MetaError>)
        ensures
            ({
                match envelope {
                    None => r == Err::<MT5MarketData, MetaError>(MetaError::ParseFailed),
                    Some(env) => {
                        if env.success {
                            match env.data {
                                Some(d) => (r matches Ok(m) && m.symbol@ == d.symbol@ && m.bid
                                    == d.bid && m.ask == d.ask && m.last == d.last && m.volume
                                    == d.volume && m.time == d.time && m.spread == d.spread
                                    && m.digits == d.digits),
                                None => r == Err::<MT5MarketData, MetaError>(
                                    MetaError::MissingData,
                                ),
                            }
                        } else {
                            r matches Err(e) && e matches MetaError::Logical(m) && m@
                                == spec_error_text_or_empty(env.error)
                        }
                    },
                }
            }),
    {
        match envelope {
            None => Err(MetaError::ParseFailed),
            Some(env) => {
                if env.success {
                    match env.data {
                        Some(d) => Ok(
                            MT5MarketData {
                                symbol: d.symbol,
                                bid: d.bid,
                                ask: d.ask,
                                last: d.last,
                                volume: d.volume,
                                time: d.time,
                                spread: d.spread,
                                digits: d.digits,
                            },
                        ),
                        None => Err(MetaError::MissingData),
                    }
                } else {
                    match env.error {
                        Some(m) => Err(MetaError::Logical(m)),
                        None => Err(MetaError::Logical(String::new())),
                    }
                }
            },
        }
    }

    /// What an order-lookup reply means: the order named by the envelope,
    /// or why there is none.
    pub fn interpret_order_fetch_reply(
        &self,
        status: u16,
        body: String,
        envelope: Option<Envelope<MT5Order>>,
    ) -> (r: Result<MT5Order, MetaError>)
        ensures
            ({
                if !spec_status_ok(status) {
                    r matches Err(e) && e matches MetaError::Transport { status: st, body: b }
                        && st == status && b@ == body@
                } else {
                    match envelope {
                        None => r == Err::<MT5Order, MetaError>(MetaError::ParseFailed),
                        Some(env) => {
                            if env.success {
                                match env.data {
                                    Some(o) => r == Ok::<MT5Order, MetaError>(o),
                                    None => r == Err::<MT5Order, MetaError>(
                                        MetaError::MissingData,
                                    ),
                                }
                            } else {
                                r matches Err(e) && e matches MetaError::Logical(m) && m@
                                    == spec_error_text_or_empty(env.error)
                            }
                        },
                    }
                }
            }),
    {
        if !(200 <= status && status < 300) {
            return Err(MetaError::Transport { status, body });
        }
        match envelope {
            None => Err(MetaError::ParseFailed),
            Some(env) => {
                if env.success {
                    match env.data {
                        Some(o) => Ok(o),
                        None => Err(MetaError::MissingData),
                    }
                } else {
                    match env.error {
                        Some(m) => Err(MetaError::Logical(m)),
                        None => Err(MetaError::Logical(String::new())),
                    }
                }
            },
        }
    }
}

} // verus!
