//! The execution-plugin adapter.
//!
//! A third vocabulary — (side, order-type) pairs with a confidence score —
//! is translated into the bridge vocabulary here. The adapter is a
//! two-state machine: before `init` every operation is refused with a
//! "not initialized" error, except `health_check`, which answers false.
//! Downstream transport failures of an attempted order are folded into an
//! `ExecutionResult` with `success == false`, never raised as an error of
//! the adapter itself; only mapping failures and the uninitialized state
//! are.

use vstd::prelude::*;
use crate::client::MT5Client;
use crate::config::Settings;
use crate::errors::{MetaError, spec_describe};
use crate::fixed::{Fixed, spec_fixed_normal, spec_fixed_display};
use crate::mapping::{OrderSide, OrderType, spec_pair_tag, pair_tag};
use crate::models::{MT5Order, MT5MarketData};
use crate::text::{spec_dec, u64_string};

verus! {

/// An order in the plugin vocabulary.
#[derive(Clone, Debug)]
pub struct Order {
    pub symbol: String,
    pub side: OrderSide,
    pub order_type: OrderType,
    pub quantity: Fixed,
    pub price: Option<Fixed>,
    pub stop_loss: Option<Fixed>,
    pub take_profit: Option<Fixed>,
    pub confidence: Fixed,
}

/// The outcome of an attempted execution, as the orchestrator sees it.
#[derive(Clone, Debug)]
pub struct ExecutionResult {
    pub success: bool,
    pub order_id: Option<String>,
    pub filled_quantity: Fixed,
    pub average_price: Fixed,
    pub error: Option<String>,
    pub timestamp: i64,
}

/// The side channel of a market snapshot: what the plugin vocabulary has
/// no field of its own for.
#[derive(Clone, Copy, Debug, PartialEq, Eq, Structural)]
pub struct MarketDataExtra {
    pub spread: Fixed,
    pub digits: u32,
}

/// A market snapshot in the plugin vocabulary.
#[derive(Clone, Debug)]
pub struct MarketData {
    pub symbol: String,
    pub bid: Fixed,
    pub ask: Fixed,
    pub last: Fixed,
    pub volume: Fixed,
    pub timestamp: i64,
    pub extra: MarketDataExtra,
}

/// The strategy tag every order of this plugin carries.
pub const PLUGIN_MAGIC: u32 = 123456;

/// A missing optional price stands in as zero.
pub open spec fn spec_opt_or_zero(o: Option<Fixed>) -> Fixed {
    match o {
        Some(f) => f,
        None => Fixed { neg: false, units: 0 },
    }
}

/// The free-text comment attached to every order of this plugin.
pub open spec fn spec_confidence_comment(c: Fixed) -> Seq<char> {
    "FKS order (confidence: "@ + spec_fixed_display(spec_fixed_normal(c)) + ")"@
}

/// How a plugin order translates into the bridge vocabulary under a tag.
pub open spec fn spec_plugin_order_model(o: Order, tag: Seq<char>, m: MT5Order) -> bool {
    &&& m.ticket == 0
    &&& m.symbol@ == o.symbol@
    &&& m.order_type@ == tag
    &&& m.volume == o.quantity
    &&& m.price == spec_opt_or_zero(o.price)
    &&& m.stop_loss == o.stop_loss
    &&& m.take_profit == o.take_profit
    &&& (m.comment matches Some(c) && c@ == spec_confidence_comment(o.confidence))
    &&& m.magic == PLUGIN_MAGIC
    &&& m.expiration is None
}

/// The bridge-backed execution plugin.
pub struct MT5Plugin {
    name: String,
    client: Option<MT5Client>,
    settings: Option<Settings>,
}

impl MT5Plugin {
    pub closed spec fn spec_name(&self) -> Seq<char> {
        self.name@
    }

    pub closed spec fn is_initialized(&self) -> bool {
        self.client is Some
    }

    pub closed spec fn spec_client(&self) -> Option<MT5Client> {
        self.client
    }

    pub closed spec fn spec_connected(&self) -> bool {
        match self.client {
            Some(c) => c.spec_connected(),
            None => false,
        }
    }

    /// A new plugin knows its name and nothing else.
    pub fn new(name: &str) -> (r: MT5Plugin)
        ensures
            r.spec_name() == name@,
            !r.is_initialized(),
    {
        MT5Plugin { name: String::from_str(name), client: None, settings: None }
    }

    pub fn name(&self) -> (r: &str)
        ensures
            r@ == self.spec_name(),
    {
        self.name.as_str()
    }

    /// Load configuration and construct the client. Calling it again
    /// replaces the prior state wholesale, so it is safe to repeat.
    pub fn init(&mut self, settings: Settings, bridge_url: String)
        ensures
            final(self).is_initialized(),
            !final(self).spec_connected(),
            final(self).spec_name() == old(self).spec_name(),
            (final(self).spec_client() matches Some(c) && c.bridge.settings == settings
                && c.bridge.bridge_url == bridge_url),
    {
        let kept = settings.clone();
        let client = MT5Client::new(settings, bridge_url);
        self.settings = Some(kept);
        self.client = Some(client);
    }

    /// Hand out the client state so the caller can drive one operation,
    /// and take it back afterwards with `restore_client`.
    pub fn take_client(&mut self) -> (r: Option<MT5Client>)
        ensures
            r == old(self).spec_client(),
            (r is Some) == old(self).is_initialized(),
            !final(self).is_initialized(),
            final(self).spec_name() == old(self).spec_name(),
    {
        let mut slot: Option<MT5Client> = None;
        core::mem::swap(&mut slot, &mut self.client);
        slot
    }

    /// Put a client back after an operation that may have changed its
    /// connection state.
    pub fn restore_client(&mut self, client: MT5Client)
        ensures
            final(self).spec_client() == Some(client),
            final(self).is_initialized(),
            final(self).spec_name() == old(self).spec_name(),
    {
        self.client = Some(client);
    }

    /// Health is false before `init`, never an error; afterwards it is the
    /// client's tracked connection state.
    pub fn health_check(&self) -> (r: bool)
        ensures
            r == self.spec_connected(),
            !self.is_initialized() ==> r == false,
    {
        match &self.client {
            Some(c) => c.health_check(),
            None => false,
        }
    }

    /// Translate a plugin order into the bridge vocabulary. An
    /// uninitialized plugin and an unsupported (side, order-type) pair are
    /// refused here, as errors of the call itself — no order is attempted.
    pub fn prepare_order(&self, order: &Order) -> (r: Result<MT5Order, MetaError>)
        ensures
            !self.is_initialized() ==> r == Err::<MT5Order, MetaError>(MetaError::NotInitialized),
            self.is_initialized() ==> ({
                match spec_pair_tag(order.side, order.order_type) {
                    None => r == Err::<MT5Order, MetaError>(MetaError::UnsupportedOrderKind),
                    Some(tag) => (r matches Ok(m) && spec_plugin_order_model(*order, tag, m)),
                }
            }),
    {
        if self.client.is_none() {
            return Err(MetaError::NotInitialized);
        }
        let tag = match pair_tag(order.side, order.order_type) {
            None => {
                return Err(MetaError::UnsupportedOrderKind);
            },
            Some(t) => t,
        };
        let conf = Fixed::new(order.confidence.neg, order.confidence.units);
        let mut comment = String::new();
        comment.append("FKS order (confidence: ");
        let shown = conf.display_string();
        comment.append(shown.as_str());
        comment.append(")");
        let price = match order.price {
            Some(p) => p,
            None => Fixed::zero(),
        };
        Ok(
            MT5Order {
                ticket: 0,
                symbol: order.symbol.clone(),
                order_type: tag,
                volume: order.quantity,
                price,
                stop_loss: order.stop_loss,
                take_profit: order.take_profit,
                comment: Some(comment),
                magic: PLUGIN_MAGIC,
                expiration: None,
            },
        )
    }

    /// Fold the outcome of an attempted order into an `ExecutionResult`:
    /// a ticket becomes a successful fill of the requested quantity; any
    /// downstream error becomes `success == false` with the error's text
    /// attached — deliberately not an error of this method.
    pub fn execution_result(
        &self,
        order: &Order,
        outcome: &Result<u64, MetaError>,
        timestamp: i64,
    ) -> (r: ExecutionResult)
        ensures
            (outcome matches Ok(t) ==> (r.success && (r.order_id matches Some(s) && s@ == spec_dec(
                *t as nat,
            )) && r.filled_quantity == order.quantity && r.average_price == spec_opt_or_zero(
                order.price,
            ) && r.error is None && r.timestamp == timestamp)),
            (outcome matches Err(e) ==> (!r.success && r.order_id is None && r.filled_quantity
                == (Fixed { neg: false, units: 0 }) && r.average_price == (Fixed {
                neg: false,
                units: 0,
            }) && (r.error matches Some(m) && m@ == spec_describe(*e)) && r.timestamp
                == timestamp)),
    {
        match outcome {
            Ok(ticket) => ExecutionResult {
                success: true,
                order_id: Some(u64_string(*ticket)),
                filled_quantity: order.quantity,
                average_price: match order.price {
                    Some(p) => p,
                    None => Fixed::zero(),
                },
                error: None,
                timestamp,
            },
            Err(e) => ExecutionResult {
                success: false,
                order_id: None,
                filled_quantity: Fixed::zero(),
                average_price: Fixed::zero(),
                error: Some(e.describe()),
                timestamp,
            },
        }
    }

    /// Re-shape a bridge market snapshot into the plugin vocabulary,
    /// folding spread and digit count into the side channel.
    pub fn reshape_market_data(&self, q: MT5MarketData) -> (r: MarketData)
        ensures
            r.symbol@ == q.symbol@,
            r.bid == q.bid,
            r.ask == q.ask,
            r.last == q.last,
            r.volume == q.volume,
            r.timestamp == q.time,
            r.extra.spread == q.spread,
            r.extra.digits == q.digits,
    {
        MarketData {
            symbol: q.symbol,
            bid: q.bid,
            ask: q.ask,
            last: q.last,
            volume: q.volume,
            timestamp: q.time,
            extra: MarketDataExtra { spread: q.spread, digits: q.digits },
        }
    }
}

} // verus!
