//! The unified client: a structural facade over the bridge transport.
//!
//! Every operation is re-exposed under the bridge's own contract, with no
//! logic added. The facade exists as the seam where another transport
//! could be substituted without touching callers.

use vstd::prelude::*;
use crate::bridge::{
    MT5BridgeClient, ProbeOutcome, Envelope, TicketData, PositionData, MarketDataResponse,
    spec_probe_ok, spec_probe_failure, spec_status_ok, spec_error_text, spec_error_text_or_empty,
    spec_position_model,
    spec_wire_view_normal,
};
use crate::config::Settings;
use crate::errors::MetaError;
use crate::mapping::spec_action_of;
use crate::models::{MT5Order, MT5Position, MT5MarketData};
use crate::wire::spec_encode;

verus! {

pub struct MT5Client {
    pub bridge: MT5BridgeClient,
}

impl MT5Client {
    pub open spec fn spec_connected(&self) -> bool {
        self.bridge.spec_connected()
    }

    /// A new client starts disconnected; the first probe decides.
    pub fn new(settings: Settings, bridge_url: String) -> (r: MT5Client)
        ensures
            r.bridge.settings == settings,
            r.bridge.bridge_url == bridge_url,
            !r.spec_connected(),
    {
        MT5Client { bridge: MT5BridgeClient::new(settings, bridge_url) }
    }

    pub fn is_connected(&self) -> (r: bool)
        ensures
            r == self.spec_connected(),
    {
        self.bridge.is_connected()
    }

    pub fn health_check(&self) -> (r: bool)
        ensures
            r == self.spec_connected(),
    {
        self.bridge.health_check()
    }

    pub fn apply_probe(&mut self, outcome: &ProbeOutcome) -> (r: Result<(), MetaError>)
        ensures
            final(self).spec_connected() == spec_probe_ok(*outcome),
            final(self).bridge.settings == old(self).bridge.settings,
            final(self).bridge.bridge_url == old(self).bridge.bridge_url,
            r is Ok <==> spec_probe_ok(*outcome),
            (r matches Err(e) ==> (e matches MetaError::Connectivity(m) && m@ == spec_probe_failure(
                *outcome,
            ))),
    {
        self.bridge.apply_probe(outcome)
    }

    pub fn prepare_order_request(&self, order: &MT5Order) -> (r: Result<Vec<char>, MetaError>)
        ensures
            ({
                match spec_action_of(order.order_type@) {
                    None => (r matches Err(e) && e matches MetaError::UnknownOrderType(t)
                        && t@ == order.order_type@),
                    Some(a) => (r matches Ok(p) && p@ == spec_encode(
                        spec_wire_view_normal(*order, a),
                    )),
                }
            }),
    {
        self.bridge.prepare_order_request(order)
    }

    pub fn interpret_order_reply(
        &self,
        status: u16,
        body: String,
        envelope: Option<Envelope<TicketData>>,
    ) -> (r: Result<u64, MetaError>)
        ensures
            ({
                if !spec_status_ok(status) {
                    r matches Err(e) && e matches MetaError::Transport { status: st, body: b }
                        && st == status && b@ == body@
                } else {
                    match envelope {
                        None => r == Err::<u64, MetaError>(MetaError::ParseFailed),
                        Some(env) => {
                            if env.success {
                                match env.data {
                                    Some(td) => r == Ok::<u64, MetaError>(td.ticket),
                                    None => r == Err::<u64, MetaError>(MetaError::MissingData),
                                }
                            } else {
                                r matches Err(e) && e matches MetaError::Logical(m) && m@
                                    == spec_error_text(env.error)
                            }
                        },
                    }
                }
            }),
    {
        self.bridge.interpret_order_reply(status, body, envelope)
    }

    pub fn interpret_cancel_reply(&self, ticket: u64, status: u16) -> (r: Result<(), MetaError>)
        ensures
            spec_status_ok(status) ==> r is Ok,
            !spec_status_ok(status) ==> r == Err::<(), MetaError>(MetaError::CancelFailed(ticket)),
    {
        self.bridge.interpret_cancel_reply(ticket, status)
    }

    pub fn interpret_close_reply(&self, ticket: u64, status: u16) -> (r: Result<(), MetaError>)
        ensures
            spec_status_ok(status) ==> r is Ok,
            !spec_status_ok(status) ==> r == Err::<(), MetaError>(MetaError::CloseFailed(ticket)),
    {
        self.bridge.interpret_close_reply(ticket, status)
    }

    pub fn interpret_positions_reply(
        &self,
        envelope: Option<Envelope<Vec<PositionData>>>,
    ) -> (r: Result<Vec<MT5Position>, MetaError>)
        ensures
            ({
                match envelope {
                    None => r == Err::<Vec<MT5Position>, MetaError>(MetaError::ParseFailed),
                    Some(env) => {
                        if env.success {
                            match env.data {
                                Some(list) => (r matches Ok(v) && v@.len() == list@.len()
                                    && (forall|i: int|
                                        0 <= i < list@.len() ==> spec_position_model(
                                            list@[i],
                                            #[trigger] v@[i],
                                        ))),
                                None => r matches Ok(v) && v@.len() == 0,
                            }
                        } else {
                            r matches Err(e) && e matches MetaError::Logical(m) && m@
                                == spec_error_text_or_empty(env.error)
                        }
                    },
                }
            }),
    {
        self.bridge.interpret_positions_reply(envelope)
    }

    pub fn interpret_position_reply(
        &self,
        status: u16,
        body: String,
        envelope: Option<Envelope<PositionData>>,
    ) -> (r: Result<Option<MT5Position>, MetaError>)
        ensures
            status == 404 ==> r == Ok::<Option<MT5Position>, MetaError>(None),
            (status != 404 && !spec_status_ok(status)) ==> (r matches Err(e)
                && e matches MetaError::Transport { status: st, body: b } && st == status && b@
                == body@),
            (status != 404 && spec_status_ok(status)) ==> ({
                match envelope {
                    None => r == Err::<Option<MT5Position>, MetaError>(MetaError::ParseFailed),
                    Some(env) => {
                        if env.success {
                            match env.data {
                                Some(d) => (r matches Ok(o) && o matches Some(p)
                                    && spec_position_model(d, p)),
                                None => r == Ok::<Option<MT5Position>, MetaError>(None),
                            }
                        } else {
                            r matches Err(e) && e matches MetaError::Logical(m) && m@
                                == spec_error_text_or_empty(env.error)
                        }
                    },
                }
            }),
    {
        self.bridge.interpret_position_reply(status, body, envelope)
    }

    pub fn interpret_market_reply(
        &self,
        envelope: Option<Envelope<MarketDataResponse>>,
    ) -> (r: Result<MT5MarketData, MetaError>)
        ensures
            ({
                match envelope {
                    None => r == Err::<MT5MarketData, MetaError>(MetaError::ParseFailed),
                    Some(env) => {
                        if env.success {
                            match env.data {
                                Some(d) => (r matches Ok(m) && m.symbol@ == d.symbol@ && m.bid
                                    == d.bid && m.ask == d.ask && m.last == d.last && m.volume
                                    == d.volume && m.time == d.time && m.spread == d.spread
                                    && m.digits == d.digits),
                                None => r == Err::<MT5MarketData, MetaError>(
                                    MetaError::MissingData,
                                ),
                            }
                        } else {
                            r matches Err(e) && e matches MetaError::Logical(m) && m@
                                == spec_error_text_or_empty(env.error)
                        }
                    },
                }
            }),
    {
        self.bridge.interpret_market_reply(envelope)
    }

    pub fn interpret_order_fetch_reply(
        &self,
        status: u16,
        body: String,
        envelope: Option<Envelope<MT5Order>>,
    ) -> (r: Result<MT5Order, MetaError>)
        ensures
            ({
                if !spec_status_ok(status) {
                    r matches Err(e) && e matches MetaError::Transport { status: st, body: b }
                        && st == status && b@ == body@
                } else {
                    match envelope {
                        None => r == Err::<MT5Order, MetaError>(MetaError::ParseFailed),
                        Some(env) => {
                            if env.success {
                                match env.data {
                                    Some(o) => r == Ok::<MT5Order, MetaError>(o),
                                    None => r == Err::<MT5Order, MetaError>(
                                        MetaError::MissingData,
                                    ),
                                }
                            } else {
                                r matches Err(e) && e matches MetaError::Logical(m) && m@
                                    == spec_error_text_or_empty(env.error)
                            }
                        },
                    }
                }
            }),
    {
        self.bridge.interpret_order_fetch_reply(status, body, envelope)
    }
}

} // verus!
