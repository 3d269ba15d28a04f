//! Deterministic validation of telemetry envelopes: the same envelope
//! always gives the same list of errors.
//!
//! Rules: the schema version must be the current one; at least one
//! timestamp must be set; every required ID must be present and non-empty
//! (a UUID must not be nil, a venue ID or symbol must not be the empty
//! text); L1 quotes need positive prices, bid below ask and a spread that
//! is not below zero; L2 snapshots need a bid level and an ask level;
//! decisions need a positive quantity and price; orders a positive
//! quantity; fills a positive quantity and price and a cumulative quantity
//! no smaller than the fill.
//!
//! Every positivity and ordering rule is a comparison that must hold; since
//! an IEEE comparison with a NaN is false, a NaN never satisfies one. The
//! spread rule is the other way round: it fires only on a spread that
//! compares below zero, so a NaN spread is not reported.

use vstd::prelude::*;

use crate::events::{
    MarketL1Event, MarketL2Event, OrderAckEvent, OrderRejectedEvent, OrderSubmittedEvent,
    RiskCheckEvent, StrategyDecisionEvent, TelemetryEnvelope, TelemetryEvent, TradeFillEvent,
    SCHEMA_VERSION,
};
use crate::ieee::Ieee64;
use crate::timestamps::EventTimestamps;

verus! {

/// Validation error with a human-readable message.
#[derive(Clone, Debug)]
pub struct ValidationError {
    pub field: String,
    pub message: String,
}

impl View for ValidationError {
    type V = (Seq<char>, Seq<char>);

    open spec fn view(&self) -> (Seq<char>, Seq<char>) {
        (self.field@, self.message@)
    }
}

impl ValidationError {
    /// `field: message`, as `Display` writes it.
    pub fn to_string(&self) -> (s: String)
        ensures
            s@ == self.field@ + ": "@ + self.message@,
    {
        let mut s = self.field.clone();
        s.append(": ");
        s.append(self.message.as_str());
        s
    }
}

/// The (field, message) pairs of a list of errors.
pub open spec fn issue_views(errors: Seq<ValidationError>) -> Seq<(Seq<char>, Seq<char>)> {
    errors.map_values(|e: ValidationError| e@)
}

/// One error when `cond` holds, none otherwise.
pub open spec fn issue_if(cond: bool, field: Seq<char>, message: Seq<char>) -> Seq<
    (Seq<char>, Seq<char>),
> {
    if cond {
        seq![(field, message)]
    } else {
        Seq::empty()
    }
}

/// `0.0 < x` in IEEE arithmetic (false for a NaN).
pub open spec fn positive(x: Ieee64) -> bool {
    Ieee64::spec_zero().spec_lt(x)
}

/// `x < 0.0` in IEEE arithmetic (false for a NaN and for `-0.0`).
pub open spec fn negative(x: Ieee64) -> bool {
    x.spec_lt(Ieee64::spec_zero())
}

/// One error when a UUID is nil.
pub open spec fn nil_issue(v: u128, field: Seq<char>, message: Seq<char>) -> Seq<
    (Seq<char>, Seq<char>),
> {
    issue_if(v == 0, field, message)
}

/// One error when a text ID is empty.
pub open spec fn empty_issue(s: Seq<char>, field: Seq<char>, message: Seq<char>) -> Seq<
    (Seq<char>, Seq<char>),
> {
    issue_if(s.len() == 0, field, message)
}

pub open spec fn schema_version_issues(version: Seq<char>) -> Seq<(Seq<char>, Seq<char>)> {
    issue_if(
        version != SCHEMA_VERSION@,
        "schema_version"@,
        "expected '"@ + SCHEMA_VERSION@ + "', got '"@ + version + "'"@,
    )
}

pub open spec fn timestamp_issues(ts: EventTimestamps) -> Seq<(Seq<char>, Seq<char>)> {
    issue_if(!ts.any_set(), "timestamps"@, "event has no timestamps"@)
}

pub open spec fn trace_issues(trace: u128) -> Seq<(Seq<char>, Seq<char>)> {
    nil_issue(trace, "trace_id"@, "trace_id must not be empty"@)
}

pub open spec fn market_l1_issues(e: MarketL1Event) -> Seq<(Seq<char>, Seq<char>)> {
    issue_if(!positive(e.best_bid.price), "market.l1.best_bid.price"@, "must be > 0"@)
        + issue_if(!positive(e.best_ask.price), "market.l1.best_ask.price"@, "must be > 0"@)
        + issue_if(
        !e.best_bid.price.spec_lt(e.best_ask.price),
        "market.l1"@,
        "crossed book: bid >= ask"@,
    ) + issue_if(negative(e.spread), "market.l1.spread"@, "negative spread"@)
        + empty_issue(e.symbol.0@, "market.l1.symbol"@, "symbol must not be empty"@)
}

pub open spec fn market_l2_issues(e: MarketL2Event) -> Seq<(Seq<char>, Seq<char>)> {
    issue_if(e.bids@.len() == 0, "market.l2.bids"@, "must have at least one bid level"@)
        + issue_if(e.asks@.len() == 0, "market.l2.asks"@, "must have at least one ask level"@)
        + empty_issue(e.symbol.0@, "market.l2.symbol"@, "symbol must not be empty"@)
}

pub open spec fn decision_issues(e: StrategyDecisionEvent) -> Seq<(Seq<char>, Seq<char>)> {
    issue_if(
        !positive(e.desired_quantity),
        "strategy.decision.desired_quantity"@,
        "must be > 0"@,
    ) + issue_if(
        !positive(e.decision_price),
        "strategy.decision.decision_price"@,
        "must be > 0"@,
    ) + nil_issue(
        e.decision_id.0,
        "strategy.decision.decision_id"@,
        "decision_id must not be empty"@,
    ) + empty_issue(e.symbol.0@, "strategy.decision.symbol"@, "symbol must not be empty"@)
}

pub open spec fn risk_issues(e: RiskCheckEvent) -> Seq<(Seq<char>, Seq<char>)> {
    nil_issue(e.decision_id.0, "risk.check.decision_id"@, "decision_id must not be empty"@)
}

pub open spec fn order_issues(e: OrderSubmittedEvent) -> Seq<(Seq<char>, Seq<char>)> {
    issue_if(!positive(e.quantity), "order.submitted.quantity"@, "must be > 0"@) + nil_issue(
        e.decision_id.0,
        "order.submitted.decision_id"@,
        "decision_id must not be empty"@,
    ) + nil_issue(
        e.client_order_id.0,
        "order.submitted.client_order_id"@,
        "client_order_id must not be empty"@,
    ) + empty_issue(e.symbol.0@, "order.submitted.symbol"@, "symbol must not be empty"@)
}

pub open spec fn ack_issues(e: OrderAckEvent) -> Seq<(Seq<char>, Seq<char>)> {
    nil_issue(
        e.client_order_id.0,
        "order.ack.client_order_id"@,
        "client_order_id must not be empty"@,
    ) + empty_issue(e.order_id.0@, "order.ack.order_id"@, "order_id must not be empty"@)
        + empty_issue(e.symbol.0@, "order.ack.symbol"@, "symbol must not be empty"@)
}

pub open spec fn rejected_issues(e: OrderRejectedEvent) -> Seq<(Seq<char>, Seq<char>)> {
    nil_issue(
        e.client_order_id.0,
        "order.rejected.client_order_id"@,
        "client_order_id must not be empty"@,
    ) + empty_issue(e.symbol.0@, "order.rejected.symbol"@, "symbol must not be empty"@)
}

pub open spec fn fill_issues(e: TradeFillEvent) -> Seq<(Seq<char>, Seq<char>)> {
    issue_if(
        !positive(e.fill_quantity),
        "trade.fill.fill_quantity"@,
        "fill_quantity must be positive"@,
    ) + issue_if(
        !positive(e.fill_price),
        "trade.fill.fill_price"@,
        "fill_price must be positive"@,
    ) + issue_if(
        !e.fill_quantity.spec_le(e.cumulative_quantity),
        "trade.fill.cumulative_quantity"@,
        "must be >= fill_quantity"@,
    ) + nil_issue(
        e.client_order_id.0,
        "trade.fill.client_order_id"@,
        "client_order_id must not be empty"@,
    ) + empty_issue(e.order_id.0@, "trade.fill.order_id"@, "order_id must not be empty"@)
        + empty_issue(e.exec_id.0@, "trade.fill.exec_id"@, "exec_id must not be empty"@)
        + empty_issue(e.symbol.0@, "trade.fill.symbol"@, "symbol must not be empty"@)
}

pub open spec fn event_issues(event: TelemetryEvent) -> Seq<(Seq<char>, Seq<char>)> {
    match event {
        TelemetryEvent::MarketL1(e) => market_l1_issues(e),
        TelemetryEvent::MarketL2(e) => market_l2_issues(e),
        TelemetryEvent::StrategyDecision(e) => decision_issues(e),
        TelemetryEvent::RiskCheck(e) => risk_issues(e),
        TelemetryEvent::OrderSubmitted(e) => order_issues(e),
        TelemetryEvent::OrderAck(e) => ack_issues(e),
        TelemetryEvent::OrderRejected(e) => rejected_issues(e),
        TelemetryEvent::TradeFill(e) => fill_issues(e),
        TelemetryEvent::SystemLatency(_) => Seq::empty(),
    }
}

/// Every error of an envelope, in the order the validator reports them:
/// schema version, timestamps, trace ID, then the event's own fields.
pub open spec fn envelope_issues(env: TelemetryEnvelope) -> Seq<(Seq<char>, Seq<char>)> {
    schema_version_issues(env.schema_version@) + timestamp_issues(env.timestamps) + trace_issues(
        env.trace_id.0,
    ) + event_issues(env.event)
}

/// An envelope with no error.
pub open spec fn is_valid(env: TelemetryEnvelope) -> bool {
    envelope_issues(env).len() == 0
}

/// Appends one error.
fn report(errors: &mut Vec<ValidationError>, field: &str, message: &str)
    ensures
        issue_views(final(errors)@) == issue_views(old(errors)@).push((field@, message@)),
{
    errors.push(ValidationError { field: String::from_str(field), message: String::from_str(message) });
    assert(issue_views(errors@) =~= issue_views(old(errors)@).push((field@, message@)));
}

/// Appends one error when `cond` holds.
fn report_if(errors: &mut Vec<ValidationError>, cond: bool, field: &str, message: &str)
    ensures
        issue_views(final(errors)@) == issue_views(old(errors)@) + issue_if(cond, field@, message@),
{
    let ghost start = issue_views(errors@);
    if cond {
        report(errors, field, message);
    }
    assert(issue_views(errors@) =~= start + issue_if(cond, field@, message@));
}

/// Appends one error when a UUID is nil.
fn check_uuid(errors: &mut Vec<ValidationError>, v: u128, field: &str, message: &str)
    ensures
        issue_views(final(errors)@) == issue_views(old(errors)@) + nil_issue(v, field@, message@),
{
    report_if(errors, v == 0, field, message);
}

/// Appends one error when a text ID is empty.
fn check_text(errors: &mut Vec<ValidationError>, s: &String, field: &str, message: &str)
    ensures
        issue_views(final(errors)@) == issue_views(old(errors)@) + empty_issue(
            s@,
            field@,
            message@,
        ),
{
    report_if(errors, s.as_str().is_empty(), field, message);
}

/// Validate a telemetry envelope. Returns a list of errors (empty = valid).
pub fn validate(envelope: &TelemetryEnvelope) -> (errors: Vec<ValidationError>)
    ensures
        issue_views(errors@) == envelope_issues(*envelope),
{
    let mut errors: Vec<ValidationError> = Vec::new();
    assert(issue_views(errors@) =~= Seq::empty());

    // Schema version check
    let expected = String::from_str(SCHEMA_VERSION);
    if !(envelope.schema_version == expected) {
        let mut message = String::from_str("expected '");
        message.append(SCHEMA_VERSION);
        message.append("', got '");
        message.append(envelope.schema_version.as_str());
        message.append("'");
        errors.push(ValidationError { field: String::from_str("schema_version"), message });
    }
    assert(issue_views(errors@) =~= schema_version_issues(envelope.schema_version@));
    let ghost after_version = issue_views(errors@);

    // At least one timestamp must exist
    let ts = &envelope.timestamps;
    let untimed = ts.ts_exchange.is_none() && ts.ts_local_rx.is_none() && ts.ts_decision.is_none()
        && ts.ts_order_tx.is_none() && ts.ts_ack_rx.is_none() && ts.ts_fill_rx.is_none();
    report_if(&mut errors, untimed, "timestamps", "event has no timestamps");

    // The trace ID must be present
    check_uuid(&mut errors, envelope.trace_id.0, "trace_id", "trace_id must not be empty");
    let ghost before_event = issue_views(errors@);
    assert(before_event =~= schema_version_issues(envelope.schema_version@) + timestamp_issues(
        envelope.timestamps,
    ) + trace_issues(envelope.trace_id.0));

    // Event-specific validation
    match &envelope.event {
        TelemetryEvent::MarketL1(e) => validate_market_l1(e, &mut errors),
        TelemetryEvent::MarketL2(e) => validate_market_l2(e, &mut errors),
        TelemetryEvent::StrategyDecision(e) => validate_decision(e, &mut errors),
        TelemetryEvent::RiskCheck(e) => {
            check_uuid(
                &mut errors,
                e.decision_id.0,
                "risk.check.decision_id",
                "decision_id must not be empty",
            );
        },
        TelemetryEvent::OrderSubmitted(e) => validate_order(e, &mut errors),
        TelemetryEvent::OrderAck(e) => validate_ack(e, &mut errors),
        TelemetryEvent::OrderRejected(e) => validate_rejected(e, &mut errors),
        TelemetryEvent::TradeFill(e) => validate_fill(e, &mut errors),
        TelemetryEvent::SystemLatency(_) => {},
    }
    assert(issue_views(errors@) =~= before_event + event_issues(envelope.event));
    errors
}

fn validate_market_l1(e: &MarketL1Event, errors: &mut Vec<ValidationError>)
    ensures
        issue_views(final(errors)@) == issue_views(old(errors)@) + market_l1_issues(*e),
{
    let ghost start = issue_views(errors@);
    let zero = Ieee64::zero();
    report_if(errors, !zero.less_than(&e.best_bid.price), "market.l1.best_bid.price", "must be > 0");
    report_if(errors, !zero.less_than(&e.best_ask.price), "market.l1.best_ask.price", "must be > 0");
    report_if(
        errors,
        !e.best_bid.price.less_than(&e.best_ask.price),
        "market.l1",
        "crossed book: bid >= ask",
    );
    report_if(errors, e.spread.less_than(&zero), "market.l1.spread", "negative spread");
    check_text(errors, &e.symbol.0, "market.l1.symbol", "symbol must not be empty");
    assert(issue_views(errors@) =~= start + market_l1_issues(*e));
}

fn validate_market_l2(e: &MarketL2Event, errors: &mut Vec<ValidationError>)
    ensures
        issue_views(final(errors)@) == issue_views(old(errors)@) + market_l2_issues(*e),
{
    let ghost start = issue_views(errors@);
    report_if(errors, e.bids.len() == 0, "market.l2.bids", "must have at least one bid level");
    report_if(errors, e.asks.len() == 0, "market.l2.asks", "must have at least one ask level");
    check_text(errors, &e.symbol.0, "market.l2.symbol", "symbol must not be empty");
    assert(issue_views(errors@) =~= start + market_l2_issues(*e));
}

fn validate_decision(e: &StrategyDecisionEvent, errors: &mut Vec<ValidationError>)
    ensures
        issue_views(final(errors)@) == issue_views(old(errors)@) + decision_issues(*e),
{
    let ghost start = issue_views(errors@);
    let zero = Ieee64::zero();
    report_if(
        errors,
        !zero.less_than(&e.desired_quantity),
        "strategy.decision.desired_quantity",
        "must be > 0",
    );
    report_if(
        errors,
        !zero.less_than(&e.decision_price),
        "strategy.decision.decision_price",
        "must be > 0",
    );
    check_uuid(
        errors,
        e.decision_id.0,
        "strategy.decision.decision_id",
        "decision_id must not be empty",
    );
    check_text(errors, &e.symbol.0, "strategy.decision.symbol", "symbol must not be empty");
    assert(issue_views(errors@) =~= start + decision_issues(*e));
}

fn validate_order(e: &OrderSubmittedEvent, errors: &mut Vec<ValidationError>)
    ensures
        issue_views(final(errors)@) == issue_views(old(errors)@) + order_issues(*e),
{
    let ghost start = issue_views(errors@);
    let zero = Ieee64::zero();
    report_if(errors, !zero.less_than(&e.quantity), "order.submitted.quantity", "must be > 0");
    check_uuid(
        errors,
        e.decision_id.0,
        "order.submitted.decision_id",
        "decision_id must not be empty",
    );
    check_uuid(
        errors,
        e.client_order_id.0,
        "order.submitted.client_order_id",
        "client_order_id must not be empty",
    );
    check_text(errors, &e.symbol.0, "order.submitted.symbol", "symbol must not be empty");
    assert(issue_views(errors@) =~= start + order_issues(*e));
}

fn validate_ack(e: &OrderAckEvent, errors: &mut Vec<ValidationError>)
    ensures
        issue_views(final(errors)@) == issue_views(old(errors)@) + ack_issues(*e),
{
    let ghost start = issue_views(errors@);
    check_uuid(
        errors,
        e.client_order_id.0,
        "order.ack.client_order_id",
        "client_order_id must not be empty",
    );
    check_text(errors, &e.order_id.0, "order.ack.order_id", "order_id must not be empty");
    check_text(errors, &e.symbol.0, "order.ack.symbol", "symbol must not be empty");
    assert(issue_views(errors@) =~= start + ack_issues(*e));
}

fn validate_rejected(e: &OrderRejectedEvent, errors: &mut Vec<ValidationError>)
    ensures
        issue_views(final(errors)@) == issue_views(old(errors)@) + rejected_issues(*e),
{
    let ghost start = issue_views(errors@);
    check_uuid(
        errors,
        e.client_order_id.0,
        "order.rejected.client_order_id",
        "client_order_id must not be empty",
    );
    check_text(errors, &e.symbol.0, "order.rejected.symbol", "symbol must not be empty");
    assert(issue_views(errors@) =~= start + rejected_issues(*e));
}

fn validate_fill(e: &TradeFillEvent, errors: &mut Vec<ValidationError>)
    ensures
        issue_views(final(errors)@) == issue_views(old(errors)@) + fill_issues(*e),
{
    let ghost start = issue_views(errors@);
    let zero = Ieee64::zero();
    report_if(
        errors,
        !zero.less_than(&e.fill_quantity),
        "trade.fill.fill_quantity",
        "fill_quantity must be positive",
    );
    report_if(
        errors,
        !zero.less_than(&e.fill_price),
        "trade.fill.fill_price",
        "fill_price must be positive",
    );
    report_if(
        errors,
        !e.fill_quantity.at_most(&e.cumulative_quantity),
        "trade.fill.cumulative_quantity",
        "must be >= fill_quantity",
    );
    check_uuid(
        errors,
        e.client_order_id.0,
        "trade.fill.client_order_id",
        "client_order_id must not be empty",
    );
    check_text(errors, &e.order_id.0, "trade.fill.order_id", "order_id must not be empty");
    check_text(errors, &e.exec_id.0, "trade.fill.exec_id", "exec_id must not be empty");
    check_text(errors, &e.symbol.0, "trade.fill.symbol", "symbol must not be empty");
    assert(issue_views(errors@) =~= start + fill_issues(*e));
}

/// The contract's rules for an event's own fields.
pub open spec fn event_rules_hold(event: TelemetryEvent) -> bool {
    match event {
        TelemetryEvent::MarketL1(e) => {
            &&& positive(e.best_bid.price)
            &&& positive(e.best_ask.price)
            &&& e.best_bid.price.spec_lt(e.best_ask.price)
            &&& !negative(e.spread)
            &&& e.symbol.0@.len() > 0
        },
        TelemetryEvent::MarketL2(e) => {
            &&& e.bids@.len() > 0
            &&& e.asks@.len() > 0
            &&& e.symbol.0@.len() > 0
        },
        TelemetryEvent::StrategyDecision(e) => {
            &&& positive(e.desired_quantity)
            &&& positive(e.decision_price)
            &&& e.decision_id.0 != 0
            &&& e.symbol.0@.len() > 0
        },
        TelemetryEvent::RiskCheck(e) => e.decision_id.0 != 0,
        TelemetryEvent::OrderSubmitted(e) => {
            &&& positive(e.quantity)
            &&& e.decision_id.0 != 0
            &&& e.client_order_id.0 != 0
            &&& e.symbol.0@.len() > 0
        },
        TelemetryEvent::OrderAck(e) => {
            &&& e.client_order_id.0 != 0
            &&& e.order_id.0@.len() > 0
            &&& e.symbol.0@.len() > 0
        },
        TelemetryEvent::OrderRejected(e) => {
            &&& e.client_order_id.0 != 0
            &&& e.symbol.0@.len() > 0
        },
        TelemetryEvent::TradeFill(e) => {
            &&& positive(e.fill_quantity)
            &&& positive(e.fill_price)
            &&& e.fill_quantity.spec_le(e.cumulative_quantity)
            &&& e.client_order_id.0 != 0
            &&& e.order_id.0@.len() > 0
            &&& e.exec_id.0@.len() > 0
            &&& e.symbol.0@.len() > 0
        },
        TelemetryEvent::SystemLatency(_) => true,
    }
}

/// The validation table: an envelope passes validation exactly when its
/// schema version is the current one, at least one timestamp is set, its
/// trace ID is not nil, and its event obeys the rules (L1: both prices
/// > 0, bid < ask, spread not < 0, symbol non-empty; L2: at least one bid and
/// one ask level; decision: quantity and price > 0; order: quantity > 0;
/// fill: quantity and price > 0, cumulative >= fill quantity; and every
/// required ID and symbol of the event non-empty). A NaN satisfies no
/// positivity or ordering rule, and is no negative spread.
pub proof fn lemma_validation_table(env: TelemetryEnvelope)
    ensures
        is_valid(env) <==> {
            &&& env.schema_version@ == SCHEMA_VERSION@
            &&& env.timestamps.any_set()
            &&& env.trace_id.0 != 0
            &&& event_rules_hold(env.event)
        },
{
    assert(envelope_issues(env).len() == schema_version_issues(env.schema_version@).len()
        + timestamp_issues(env.timestamps).len() + trace_issues(env.trace_id.0).len()
        + event_issues(env.event).len());
}

/// Consumers must check the schema version: an envelope of any version
/// other than the current one is rejected, whatever else it holds.
pub proof fn lemma_foreign_version_rejected(env: TelemetryEnvelope)
    requires
        env.schema_version@ != SCHEMA_VERSION@,
    ensures
        !is_valid(env),
{
    lemma_validation_table(env);
}

/// Every event must carry at least one timestamp: an envelope with none is
/// rejected, whatever else it holds.
pub proof fn lemma_untimed_rejected(env: TelemetryEnvelope)
    requires
        !env.timestamps.any_set(),
    ensures
        !is_valid(env),
{
    lemma_validation_table(env);
}

} // verus!
