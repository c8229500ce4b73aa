//! The error taxonomy of the core.
//!
//! Connectivity failures, mapping failures, transport failures (a
//! non-success status), logical failures (the envelope reports failure) and
//! malformed replies are kept apart, because callers react to them
//! differently: mapping and connectivity errors abort a call before any
//! order is sent, while transport and logical errors describe a call that
//! reached the bridge.

use vstd::prelude::*;
use crate::text::{spec_dec, push_dec_string};

verus! {

#[derive(Clone, Debug, PartialEq)]
pub enum MetaError {
    /// The bridge endpoint could not be probed or reached.
    Connectivity(String),
    /// An order-type tag outside the closed six-tag set.
    UnknownOrderType(String),
    /// A (side, order-type) pair the plugin vocabulary does not support.
    UnsupportedOrderKind,
    /// A plugin operation before `init`.
    NotInitialized,
    /// A non-success transport status, with the reply body.
    Transport { status: u16, body: String },
    /// A cancel request the bridge did not accept, by ticket.
    CancelFailed(u64),
    /// A close request the bridge did not accept, by ticket.
    CloseFailed(u64),
    /// The transport succeeded but the envelope reports failure.
    Logical(String),
    /// The reply body was not a well-formed envelope.
    ParseFailed,
    /// The envelope reports success but carries no payload.
    MissingData,
}

/// The descriptive text of an error.
pub open spec fn spec_describe(e: MetaError) -> Seq<char> {
    match e {
        MetaError::Connectivity(m) => "Failed to reach MT5 bridge service: "@ + m@,
        MetaError::UnknownOrderType(t) => "Unknown order type: "@ + t@,
        MetaError::UnsupportedOrderKind => "Unsupported order type"@,
        MetaError::NotInitialized => "Plugin not initialized"@,
        MetaError::Transport { status, body } => "Bridge returned error: "@ + spec_dec(
            status as nat,
        ) + " - "@ + body@,
        MetaError::CancelFailed(t) => "Failed to cancel order: "@ + spec_dec(t as nat),
        MetaError::CloseFailed(t) => "Failed to close position: "@ + spec_dec(t as nat),
        MetaError::Logical(m) => "Bridge reported failure: "@ + m@,
        MetaError::ParseFailed => "Failed to parse bridge response"@,
        MetaError::MissingData => "Bridge returned success but no data"@,
    }
}

impl MetaError {
    /// The descriptive text of this error, for logs and HTTP replies.
    pub fn describe(&self) -> (r: String)
        ensures
            r@ == spec_describe(*self),
    {
        let mut out = String::new();
        match self {
            MetaError::Connectivity(m) => {
                out.append("Failed to reach MT5 bridge service: ");
                out.append(m.as_str());
            },
            MetaError::UnknownOrderType(t) => {
                out.append("Unknown order type: ");
                out.append(t.as_str());
            },
            MetaError::UnsupportedOrderKind => {
                out.append("Unsupported order type");
            },
            MetaError::NotInitialized => {
                out.append("Plugin not initialized");
            },
            MetaError::Transport { status, body } => {
                out.append("Bridge returned error: ");
                push_dec_string(&mut out, *status as u64);
                out.append(" - ");
                out.append(body.as_str());
            },
            MetaError::CancelFailed(t) => {
                out.append("Failed to cancel order: ");
                push_dec_string(&mut out, *t);
            },
            MetaError::CloseFailed(t) => {
                out.append("Failed to close position: ");
                push_dec_string(&mut out, *t);
            },
            MetaError::Logical(m) => {
                out.append("Bridge reported failure: ");
                out.append(m.as_str());
            },
            MetaError::ParseFailed => {
                out.append("Failed to parse bridge response");
            },
            MetaError::MissingData => {
                out.append("Bridge returned success but no data");
            },
        }
        out
    }
}

} // verus!
