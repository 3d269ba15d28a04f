//! The telemetry contract: every event of the trading system is one of the
//! variants of `TelemetryEvent`, wrapped in a `TelemetryEnvelope`.
//!
//! Event names follow `{domain}.{action}`: `market.l1`, `market.l2`,
//! `strategy.decision`, `risk.check`, `order.submitted`, `order.ack`,
//! `order.rejected`, `trade.fill`, `system.latency`.

use vstd::prelude::*;

use crate::ids::{ClientOrderId, DecisionId, ExecId, OrderId, SymbolId, TraceId};
use crate::ieee::Ieee64;
use crate::timestamps::{now, EventTimestamps, Timestamp};

verus! {

/// Schema version; bump it when the contract changes.
pub const SCHEMA_VERSION: &'static str = "0.1.0";

/// Every telemetry event is wrapped in this envelope.
/// The envelope provides: schema version, timing, and correlation IDs.
#[derive(Clone, Debug)]
pub struct TelemetryEnvelope {
    /// Schema version for backward compatibility checking.
    pub schema_version: String,
    /// When this envelope was created.
    pub created_at: Timestamp,
    /// The trace this event belongs to.
    pub trace_id: TraceId,
    /// Multi-timestamp model.
    pub timestamps: EventTimestamps,
    /// The actual event payload.
    pub event: TelemetryEvent,
}

/// Tagged union of all telemetry event types.
#[derive(Clone, Debug)]
pub enum TelemetryEvent {
    /// Level 1 market data (top-of-book).
    MarketL1(MarketL1Event),
    /// Level 2 market data (order book depth).
    MarketL2(MarketL2Event),
    /// Strategy decision.
    StrategyDecision(StrategyDecisionEvent),
    /// Pre-trade risk check.
    RiskCheck(RiskCheckEvent),
    /// Order submitted to venue.
    OrderSubmitted(OrderSubmittedEvent),
    /// Order acknowledged by venue.
    OrderAck(OrderAckEvent),
    /// Order rejected by venue.
    OrderRejected(OrderRejectedEvent),
    /// Trade fill (partial or complete).
    TradeFill(TradeFillEvent),
    /// System latency measurement.
    SystemLatency(SystemLatencyEvent),
}

/// A single price level in the order book.
#[derive(Clone, Copy, Debug, PartialEq, Eq, Structural)]
pub struct PriceLevel {
    pub price: Ieee64,
    pub size: Ieee64,
}

/// Level 1: top-of-book snapshot.
#[derive(Clone, Debug)]
pub struct MarketL1Event {
    pub symbol: SymbolId,
    pub best_bid: PriceLevel,
    pub best_ask: PriceLevel,
    /// Mid price = (best_bid + best_ask) / 2
    pub mid_price: Ieee64,
    /// Spread in ticks or absolute
    pub spread: Ieee64,
    pub last_trade_price: Option<Ieee64>,
    pub last_trade_size: Option<Ieee64>,
}

/// Level 2: order book depth snapshot.
#[derive(Clone, Debug)]
pub struct MarketL2Event {
    pub symbol: SymbolId,
    /// Bid levels, sorted best (highest) first.
    pub bids: Vec<PriceLevel>,
    /// Ask levels, sorted best (lowest) first.
    pub asks: Vec<PriceLevel>,
    /// Number of levels provided.
    pub depth: usize,
}

/// Which direction and how much.
#[derive(Clone, Copy, Debug, PartialEq, Eq, Structural)]
pub enum Side {
    Buy,
    Sell,
}

/// Strategy decision: "I want to trade."
#[derive(Clone, Debug)]
pub struct StrategyDecisionEvent {
    pub decision_id: DecisionId,
    pub symbol: SymbolId,
    pub side: Side,
    pub desired_quantity: Ieee64,
    /// Price at decision time (the "decision mid").
    pub decision_price: Ieee64,
    /// Model that generated this decision (if any).
    pub model_id: Option<String>,
    pub model_version: Option<String>,
    /// Confidence score from the model (0.0 - 1.0).
    pub confidence: Option<Ieee64>,
    /// Human-readable reason.
    pub reason: String,
}

/// Pre-trade risk check result.
#[derive(Clone, Debug)]
pub struct RiskCheckEvent {
    pub decision_id: DecisionId,
    pub passed: bool,
    /// Which checks ran and their results.
    pub checks: Vec<RiskCheckDetail>,
    /// If rejected, why.
    pub rejection_reason: Option<String>,
}

/// One pre-trade risk check.
#[derive(Clone, Debug)]
pub struct RiskCheckDetail {
    pub check_name: String,
    pub passed: bool,
    pub value: Ieee64,
    pub limit: Ieee64,
}

/// Order type.
#[derive(Clone, Copy, Debug, PartialEq, Eq, Structural)]
pub enum OrderType {
    Market,
    Limit,
}

/// Time in force.
#[derive(Clone, Copy, Debug, PartialEq, Eq, Structural)]
pub enum TimeInForce {
    /// Good till cancel.
    GTC,
    /// Immediate or cancel.
    IOC,
    /// Fill or kill.
    FOK,
    /// Day order.
    Day,
}

/// Order submitted to venue.
#[derive(Clone, Debug)]
pub struct OrderSubmittedEvent {
    pub decision_id: DecisionId,
    pub client_order_id: ClientOrderId,
    pub symbol: SymbolId,
    pub side: Side,
    pub order_type: OrderType,
    pub quantity: Ieee64,
    pub limit_price: Option<Ieee64>,
    pub time_in_force: TimeInForce,
}

/// Venue acknowledged the order (it's live on the book or accepted).
#[derive(Clone, Debug)]
pub struct OrderAckEvent {
    pub client_order_id: ClientOrderId,
    pub order_id: OrderId,
    pub symbol: SymbolId,
}

/// Venue rejected the order.
#[derive(Clone, Debug)]
pub struct OrderRejectedEvent {
    pub client_order_id: ClientOrderId,
    pub symbol: SymbolId,
    pub reason: String,
}

/// Whether this is a partial or complete fill.
#[derive(Clone, Copy, Debug, PartialEq, Eq, Structural)]
pub enum FillType {
    Partial,
    Full,
}

/// Maker or taker (liquidity role).
#[derive(Clone, Copy, Debug, PartialEq, Eq, Structural)]
pub enum LiquidityRole {
    Maker,
    Taker,
    Unknown,
}

/// A trade fill event.
#[derive(Clone, Debug)]
pub struct TradeFillEvent {
    pub client_order_id: ClientOrderId,
    pub order_id: OrderId,
    pub exec_id: ExecId,
    pub symbol: SymbolId,
    pub side: Side,
    /// How much was filled in this event.
    pub fill_quantity: Ieee64,
    /// Price of this fill.
    pub fill_price: Ieee64,
    /// Running total filled so far.
    pub cumulative_quantity: Ieee64,
    /// Remaining to fill.
    pub leaves_quantity: Ieee64,
    pub fill_type: FillType,
    pub liquidity_role: LiquidityRole,
    /// Fee charged/rebated for this fill.
    pub fee: Ieee64,
    pub fee_currency: String,
}

/// Latency measurement event.
#[derive(Clone, Debug)]
pub struct SystemLatencyEvent {
    pub component: String,
    /// Latency in microseconds.
    pub latency_us: u64,
    pub percentile: String,
}

/// The wire name (`type` tag) of each kind of event.
pub open spec fn event_type_name(event: TelemetryEvent) -> Seq<char> {
    match event {
        TelemetryEvent::MarketL1(_) => "market.l1"@,
        TelemetryEvent::MarketL2(_) => "market.l2"@,
        TelemetryEvent::StrategyDecision(_) => "strategy.decision"@,
        TelemetryEvent::RiskCheck(_) => "risk.check"@,
        TelemetryEvent::OrderSubmitted(_) => "order.submitted"@,
        TelemetryEvent::OrderAck(_) => "order.ack"@,
        TelemetryEvent::OrderRejected(_) => "order.rejected"@,
        TelemetryEvent::TradeFill(_) => "trade.fill"@,
        TelemetryEvent::SystemLatency(_) => "system.latency"@,
    }
}

impl TelemetryEvent {
    /// The event's `type` tag on the wire, `{domain}.{action}`.
    pub fn event_type(&self) -> (name: String)
        ensures
            name@ == event_type_name(*self),
    {
        match self {
            TelemetryEvent::MarketL1(_) => String::from_str("market.l1"),
            TelemetryEvent::MarketL2(_) => String::from_str("market.l2"),
            TelemetryEvent::StrategyDecision(_) => String::from_str("strategy.decision"),
            TelemetryEvent::RiskCheck(_) => String::from_str("risk.check"),
            TelemetryEvent::OrderSubmitted(_) => String::from_str("order.submitted"),
            TelemetryEvent::OrderAck(_) => String::from_str("order.ack"),
            TelemetryEvent::OrderRejected(_) => String::from_str("order.rejected"),
            TelemetryEvent::TradeFill(_) => String::from_str("trade.fill"),
            TelemetryEvent::SystemLatency(_) => String::from_str("system.latency"),
        }
    }
}

impl TelemetryEnvelope {
    /// Wrap an event in an envelope with the given trace and timestamps,
    /// stamped with the current schema version and creation time.
    pub fn new(trace_id: TraceId, timestamps: EventTimestamps, event: TelemetryEvent) -> (env:
        TelemetryEnvelope)
        ensures
            env.schema_version@ == SCHEMA_VERSION@,
            env.trace_id == trace_id,
            env.timestamps == timestamps,
            env.event == event,
            env.created_at.secs >= 0,
            env.created_at.nanos < 1_000_000_000,
    {
        TelemetryEnvelope {
            schema_version: String::from_str(SCHEMA_VERSION),
            created_at: now(),
            trace_id,
            timestamps,
            event,
        }
    }
}

} // verus!
