use telemetry_core::events::{
    FillType, LiquidityRole, MarketL1Event, MarketL2Event, OrderAckEvent, OrderSubmittedEvent,
    OrderType, PriceLevel, Side, StrategyDecisionEvent, TelemetryEnvelope, TelemetryEvent,
    TimeInForce, TradeFillEvent,
};
use telemetry_core::ids::{ClientOrderId, DecisionId, ExecId, OrderId, SymbolId, TraceId};
use telemetry_core::ieee::Ieee64;
use telemetry_core::kpi::KpiState;
use telemetry_core::timestamps::{EventTimestamps, Timestamp};

fn d(v: f64) -> Ieee64 {
    Ieee64::from_bits(v.to_bits())
}

fn f(v: Ieee64) -> f64 {
    f64::from_bits(v.bits)
}

const BASE_SECS: i64 = 1_775_757_600;

fn at_us(us: i64) -> Timestamp {
    let total = BASE_SECS as i128 * 1_000_000 + us as i128;
    Timestamp { secs: (total / 1_000_000) as i64, nanos: ((total % 1_000_000) * 1000) as u32 }
}

fn env(ts: EventTimestamps, event: TelemetryEvent) -> TelemetryEnvelope {
    TelemetryEnvelope::new(TraceId(7), ts, event)
}

fn fill(qty: f64, cum: f64, fill_type: FillType) -> TelemetryEvent {
    TelemetryEvent::TradeFill(TradeFillEvent {
        client_order_id: ClientOrderId(1),
        order_id: OrderId("EX-2026-0409-00001".into()),
        exec_id: ExecId("EXEC".into()),
        symbol: SymbolId("ES".into()),
        side: Side::Buy,
        fill_quantity: d(qty),
        fill_price: d(5400.375),
        cumulative_quantity: d(cum),
        leaves_quantity: d(5.0 - cum),
        fill_type,
        liquidity_role: LiquidityRole::Taker,
        fee: d(qty * 1.18),
        fee_currency: "USD".into(),
    })
}

/// The order lifecycle of the golden trace: decision, order at t, ack at
/// t + 850us, partial fill at t + 1050us, final fill 15ms later.
fn golden_lifecycle() -> Vec<TelemetryEnvelope> {
    let order_tx = 25_000_200i64;
    let mut out = vec![];
    for i in 0..3 {
        out.push(env(
            EventTimestamps { ts_local_rx: Some(at_us(i * 250_000)), ..EventTimestamps::empty() },
            TelemetryEvent::MarketL1(MarketL1Event {
                symbol: SymbolId("ES".into()),
                best_bid: PriceLevel { price: d(5400.0), size: d(100.0) },
                best_ask: PriceLevel { price: d(5400.25), size: d(100.0) },
                mid_price: d(5400.125),
                spread: d(0.25),
                last_trade_price: None,
                last_trade_size: None,
            }),
        ));
    }
    out.push(env(
        EventTimestamps { ts_exchange: Some(at_us(0)), ..EventTimestamps::empty() },
        TelemetryEvent::MarketL2(MarketL2Event {
            symbol: SymbolId("ES".into()),
            bids: vec![PriceLevel { price: d(5400.0), size: d(20.0) }],
            asks: vec![PriceLevel { price: d(5400.25), size: d(20.0) }],
            depth: 1,
        }),
    ));
    out.push(env(
        EventTimestamps { ts_decision: Some(at_us(25_000_000)), ..EventTimestamps::empty() },
        TelemetryEvent::StrategyDecision(StrategyDecisionEvent {
            decision_id: DecisionId(2),
            symbol: SymbolId("ES".into()),
            side: Side::Buy,
            desired_quantity: d(5.0),
            decision_price: d(5407.375),
            model_id: Some("quant-alpha-v1".into()),
            model_version: Some("0.1.0".into()),
            confidence: Some(d(0.73)),
            reason: "Momentum".into(),
        }),
    ));
    out.push(env(
        EventTimestamps { ts_order_tx: Some(at_us(order_tx)), ..EventTimestamps::empty() },
        TelemetryEvent::OrderSubmitted(OrderSubmittedEvent {
            decision_id: DecisionId(2),
            client_order_id: ClientOrderId(1),
            symbol: SymbolId("ES".into()),
            side: Side::Buy,
            order_type: OrderType::Limit,
            quantity: d(5.0),
            limit_price: Some(d(5407.625)),
            time_in_force: TimeInForce::IOC,
        }),
    ));
    out.push(env(
        EventTimestamps { ts_ack_rx: Some(at_us(order_tx + 850)), ..EventTimestamps::empty() },
        TelemetryEvent::OrderAck(OrderAckEvent {
            client_order_id: ClientOrderId(1),
            order_id: OrderId("EX-2026-0409-00001".into()),
            symbol: SymbolId("ES".into()),
        }),
    ));
    out.push(env(
        EventTimestamps { ts_fill_rx: Some(at_us(order_tx + 1050)), ..EventTimestamps::empty() },
        fill(3.0, 3.0, FillType::Partial),
    ));
    out.push(env(
        EventTimestamps { ts_fill_rx: Some(at_us(order_tx + 16_050)), ..EventTimestamps::empty() },
        fill(2.0, 5.0, FillType::Full),
    ));
    out
}

#[test]
fn golden_trace_latency_kpis() {
    let mut s = KpiState::new();
    for e in golden_lifecycle() {
        s.ingest(&e);
    }
    assert_eq!(s.events_total, 9);
    assert_eq!(s.events_market_l1, 3);
    assert_eq!(s.events_market_l2, 1);
    assert_eq!(s.time_to_ack(), Some(850));
    assert_eq!(s.time_to_first_fill(), Some(1050));
    assert_eq!(s.time_to_complete(), Some(16050));
    assert_eq!(s.fill_count, 2);
    assert_eq!(s.partial_fills, 1);
    assert_eq!(s.complete_fills, 1);
    assert_eq!(f(s.cumulative_quantity), 5.0);
    assert_eq!(f(s.desired_quantity.unwrap()), 5.0);
    assert_eq!(f(s.decision_price.unwrap()), 5407.375);
    assert_eq!(s.decision_side, Some(Side::Buy));
}

#[test]
fn last_decision_side_is_kept() {
    let mut s = KpiState::new();
    assert_eq!(s.decision_side, None);
    for side in [Side::Buy, Side::Sell] {
        s.ingest(&env(
            EventTimestamps { ts_decision: Some(at_us(1)), ..EventTimestamps::empty() },
            TelemetryEvent::StrategyDecision(StrategyDecisionEvent {
                decision_id: DecisionId(7),
                symbol: SymbolId("ES".into()),
                side,
                desired_quantity: d(2.0),
                decision_price: d(5400.0),
                model_id: None,
                model_version: None,
                confidence: None,
                reason: "test".into(),
            }),
        ));
        assert_eq!(s.decision_side, Some(side));
    }
    assert_eq!(s.events_total, 2);
}

#[test]
fn golden_trace_fill_quality_kpis() {
    let mut s = KpiState::new();
    for e in golden_lifecycle() {
        s.ingest(&e);
    }
    let notional = s.fills.iter().fold(0.0, |acc, r| acc + f(r.price) * f(r.quantity));
    let fees = s.fills.iter().fold(0.0, |acc, r| acc + f(r.fee));
    let avg_fill = notional / f(s.cumulative_quantity);
    let slippage = avg_fill - f(s.decision_price.unwrap());
    assert_eq!(format!("{:.4}", avg_fill), "5400.3750");
    assert_eq!(format!("{:.4}", fees), "5.9000");
    assert_eq!(format!("{:.1}%", f(s.cumulative_quantity) / f(s.desired_quantity.unwrap()) * 100.0), "100.0%");
    assert!(slippage < 0.0);
}

#[test]
fn empty_trace_has_no_latency() {
    let s = KpiState::new();
    assert_eq!(s.time_to_ack(), None);
    assert_eq!(s.time_to_first_fill(), None);
    assert_eq!(s.time_to_complete(), None);
    assert_eq!(s.events_total, 0);
    assert!(s.fills.is_empty());
}

#[test]
fn fills_without_clock_are_recorded_but_not_classified() {
    let mut s = KpiState::new();
    s.ingest(&env(EventTimestamps::empty(), fill(1.0, 1.0, FillType::Full)));
    assert_eq!(s.fill_count, 1);
    assert_eq!(s.fills.len(), 1);
    assert_eq!(s.partial_fills + s.complete_fills, 0);
    assert_eq!(s.ts_done_fill_us, None);
}

#[test]
fn first_fill_clock_is_kept() {
    let mut s = KpiState::new();
    s.ingest(&env(EventTimestamps { ts_fill_rx: Some(at_us(10)), ..EventTimestamps::empty() }, fill(1.0, 1.0, FillType::Partial)));
    s.ingest(&env(EventTimestamps { ts_fill_rx: Some(at_us(20)), ..EventTimestamps::empty() }, fill(1.0, 2.0, FillType::Full)));
    assert_eq!(s.ts_first_fill_us, Some(BASE_SECS as i128 * 1_000_000 + 10));
    assert_eq!(s.ts_done_fill_us, Some(BASE_SECS as i128 * 1_000_000 + 20));
    assert_eq!(s.time_to_ack(), None);
}

#[test]
fn timestamp_micros_truncates_nanoseconds() {
    let t = Timestamp { secs: 1, nanos: 1_999 };
    assert_eq!(t.timestamp_micros(), 1_000_001);
    let leap = Timestamp { secs: 0, nanos: 1_500_000_000 };
    assert_eq!(leap.timestamp_micros(), 1_500_000);
    let before_epoch = Timestamp { secs: -1, nanos: 500_000 };
    assert_eq!(before_epoch.timestamp_micros(), -999_500);
}
