use telemetry_core::events::{
    FillType, LiquidityRole, MarketL1Event, MarketL2Event, OrderAckEvent, OrderSubmittedEvent,
    OrderType, PriceLevel, RiskCheckDetail, RiskCheckEvent, Side, StrategyDecisionEvent,
    SystemLatencyEvent, TelemetryEnvelope, TelemetryEvent, TimeInForce, TradeFillEvent,
};
use telemetry_core::ids::{ClientOrderId, DecisionId, ExecId, OrderId, SymbolId, TraceId};
use telemetry_core::ieee::Ieee64;
use telemetry_core::kpi::KpiState;
use telemetry_core::timestamps::{now, EventTimestamps, Timestamp};
use telemetry_core::writer::JsonlWriter;

fn d(v: f64) -> Ieee64 {
    Ieee64::from_bits(v.to_bits())
}

fn at(base: &Timestamp, us: i64) -> Option<Timestamp> {
    let total = base.secs as i128 * 1_000_000 + (base.nanos / 1000) as i128 + us as i128;
    Some(Timestamp { secs: (total.div_euclid(1_000_000)) as i64, nanos: (total.rem_euclid(1_000_000) * 1000) as u32 })
}

/// The golden ES scenario with a deterministic price path: 100 L1 updates,
/// an L2 snapshot every 20 updates, decision, risk check, order, ack, a
/// partial and a final fill, and 5 latency events.
fn golden_trace() -> Vec<TelemetryEnvelope> {
    let base = now();
    let trace = TraceId::new();
    let decision_id = DecisionId::new();
    let client_order_id = ClientOrderId::new();
    let symbol = SymbolId("ES".into());
    let order_id = OrderId("EX-2026-0409-00001".into());
    let mut out = vec![];
    let mut price = 5400.0;
    for i in 0..100i64 {
        price += [0.0, 0.25, -0.25, 0.5, -0.5][(i % 5) as usize];
        let spread = if i % 10 < 7 { 0.25 } else { 0.5 };
        let (bid, ask) = (price, price + spread);
        let t = i * 250_000;
        out.push(TelemetryEnvelope::new(
            trace,
            EventTimestamps { ts_exchange: at(&base, t - 100), ts_local_rx: at(&base, t), ..EventTimestamps::empty() },
            TelemetryEvent::MarketL1(MarketL1Event {
                symbol: symbol.clone(),
                best_bid: PriceLevel { price: d(bid), size: d(100.0) },
                best_ask: PriceLevel { price: d(ask), size: d(120.0) },
                mid_price: d((bid + ask) / 2.0),
                spread: d(spread),
                last_trade_price: Some(d(bid)),
                last_trade_size: Some(d(3.0)),
            }),
        ));
        if i % 20 == 0 {
            let bids = (0..10).map(|l| PriceLevel { price: d(bid - l as f64 * 0.25), size: d(50.0) }).collect();
            let asks = (0..10).map(|l| PriceLevel { price: d(ask + l as f64 * 0.25), size: d(50.0) }).collect();
            out.push(TelemetryEnvelope::new(
                trace,
                EventTimestamps { ts_exchange: at(&base, t), ts_local_rx: at(&base, t + 30), ..EventTimestamps::empty() },
                TelemetryEvent::MarketL2(MarketL2Event { symbol: symbol.clone(), bids, asks, depth: 10 }),
            ));
        }
    }
    let mid = price + 0.125;
    let decision_t = 25_000_000i64;
    out.push(TelemetryEnvelope::new(
        trace,
        EventTimestamps { ts_decision: at(&base, decision_t), ts_local_rx: at(&base, decision_t - 5000), ..EventTimestamps::empty() },
        TelemetryEvent::StrategyDecision(StrategyDecisionEvent {
            decision_id,
            symbol: symbol.clone(),
            side: Side::Buy,
            desired_quantity: d(5.0),
            decision_price: d(mid),
            model_id: Some("quant-alpha-v1".into()),
            model_version: Some("0.1.0".into()),
            confidence: Some(d(0.73)),
            reason: "Momentum signal + L2 imbalance detected on ES".into(),
        }),
    ));
    out.push(TelemetryEnvelope::new(
        trace,
        EventTimestamps { ts_decision: at(&base, decision_t + 150), ..EventTimestamps::empty() },
        TelemetryEvent::RiskCheck(RiskCheckEvent {
            decision_id,
            passed: true,
            checks: vec![RiskCheckDetail { check_name: "max_position_size".into(), passed: true, value: d(5.0), limit: d(50.0) }],
            rejection_reason: None,
        }),
    ));
    let order_t = decision_t + 200;
    out.push(TelemetryEnvelope::new(
        trace,
        EventTimestamps { ts_order_tx: at(&base, order_t), ..EventTimestamps::empty() },
        TelemetryEvent::OrderSubmitted(OrderSubmittedEvent {
            decision_id,
            client_order_id,
            symbol: symbol.clone(),
            side: Side::Buy,
            order_type: OrderType::Limit,
            quantity: d(5.0),
            limit_price: Some(d(mid + 0.25)),
            time_in_force: TimeInForce::IOC,
        }),
    ));
    out.push(TelemetryEnvelope::new(
        trace,
        EventTimestamps { ts_ack_rx: at(&base, order_t + 850), ..EventTimestamps::empty() },
        TelemetryEvent::OrderAck(OrderAckEvent { client_order_id, order_id: order_id.clone(), symbol: symbol.clone() }),
    ));
    for (exec, qty, cum, t, fill_type) in
        [("EXEC-001", 3.0, 3.0, order_t + 1050, FillType::Partial), ("EXEC-002", 2.0, 5.0, order_t + 16_050, FillType::Full)]
    {
        out.push(TelemetryEnvelope::new(
            trace,
            EventTimestamps { ts_fill_rx: at(&base, t), ..EventTimestamps::empty() },
            TelemetryEvent::TradeFill(TradeFillEvent {
                client_order_id,
                order_id: order_id.clone(),
                exec_id: ExecId(exec.into()),
                symbol: symbol.clone(),
                side: Side::Buy,
                fill_quantity: d(qty),
                fill_price: d(mid + 0.25),
                cumulative_quantity: d(cum),
                leaves_quantity: d(5.0 - cum),
                fill_type,
                liquidity_role: LiquidityRole::Taker,
                fee: d(qty * 1.18),
                fee_currency: "USD".into(),
            }),
        ));
    }
    for (component, us) in [
        ("decision_to_order", 50u64),
        ("order_to_ack", 850),
        ("ack_to_first_fill", 200),
        ("first_fill_to_complete", 15_000),
        ("end_to_end", 16_100),
    ] {
        out.push(TelemetryEnvelope::new(
            trace,
            EventTimestamps::local_now(),
            TelemetryEvent::SystemLatency(SystemLatencyEvent {
                component: component.into(),
                latency_us: us,
                percentile: "actual".into(),
            }),
        ));
    }
    out
}

#[test]
fn golden_trace_has_116_events_and_none_rejected() {
    let trace = golden_trace();
    assert_eq!(trace.len(), 116);
    let mut w = JsonlWriter::new(|e: &TelemetryEnvelope| -> Result<String, String> {
        Ok(format!("{{\"type\":\"{}\"}}", e.event.event_type()))
    });
    for e in &trace {
        assert!(w.write(e).unwrap());
    }
    assert_eq!(w.events_written(), 116);
    assert_eq!(w.events_rejected(), 0);
    let lines = w.flush();
    assert_eq!(lines.len(), 116);
    assert_eq!(lines[105], "{\"type\":\"strategy.decision\"}");
}

#[test]
fn golden_trace_kpis_match_the_report() {
    let mut s = KpiState::new();
    for e in golden_trace() {
        s.ingest(&e);
    }
    assert_eq!(s.events_total, 116);
    assert_eq!(s.events_market_l1, 100);
    assert_eq!(s.events_market_l2, 5);
    assert_eq!(s.time_to_ack(), Some(850));
    assert_eq!(s.time_to_first_fill(), Some(1050));
    assert_eq!(s.time_to_complete(), Some(16050));
    assert_eq!((s.fill_count, s.partial_fills, s.complete_fills), (2, 1, 1));
    let fees = s.fills.iter().fold(0.0, |acc, r| acc + f64::from_bits(r.fee.bits));
    assert_eq!(format!("{:.4}", fees), "5.9000");
}

#[test]
fn envelopes_carry_the_current_clock_and_version() {
    let before = now();
    let e = TelemetryEnvelope::new(TraceId::new(), EventTimestamps::local_now(), golden_trace().remove(0).event);
    assert!(e.created_at.secs >= before.secs && before.secs > 1_600_000_000);
    assert!(e.created_at.nanos < 1_000_000_000);
    assert_eq!(e.schema_version, "0.1.0");
    assert_eq!(e.timestamps.ts_exchange, None);
    assert!(e.timestamps.ts_local_rx.is_some());
}
