use telemetry_core::events::{Side, TelemetryEnvelope};
use telemetry_core::ieee::Ieee64;
use telemetry_core::telemetry::{measure_us, TelemetrySession};

fn d(v: f64) -> Ieee64 {
    Ieee64::from_bits(v.to_bits())
}

fn encode(e: &TelemetryEnvelope) -> Result<String, String> {
    Ok(format!(
        "{{\"trace_id\":\"{}\",\"event\":{{\"type\":\"{}\"}}}}",
        e.trace_id.to_string(),
        e.event.event_type()
    ))
}

#[test]
fn session_opens_and_emits_startup() {
    let mut session = TelemetrySession::open(encode);
    session.emit_startup(12_500);
    session.emit_boundary_latency("db.connect", 250_000);
    session.emit_boundary_latency("cache.connect", 3_000);

    let lines: Vec<String> = session.flush().into_iter().filter(|l| !l.trim().is_empty()).collect();
    assert_eq!(lines.len(), 3, "expected 3 events");

    // Verify JSON parses
    for line in &lines {
        let _: serde_json::Value = serde_json::from_str(line).expect("valid JSON");
    }
    assert_eq!(session.stats(), (3, 0));
}

#[test]
fn measure_us_returns_non_zero_for_sleep() {
    let (_, us) = measure_us(|| {
        let start = std::time::Instant::now();
        while start.elapsed() < std::time::Duration::from_millis(1) {}
    });
    assert!(us >= 1_000, "expected at least 1ms, got {}μs", us);
}

#[test]
fn measure_us_hands_back_the_result() {
    let (r, _) = measure_us(|| 6 * 7);
    assert_eq!(r, 42);
}

#[test]
fn emit_decision_writes_strategy_event() {
    let mut session = TelemetrySession::open(encode);
    session.emit_decision("ES", Side::Buy, d(5.0), d(5400.125), "test decision");
    let content = session.flush().join("\n");
    assert!(content.contains("strategy.decision"));
}

#[test]
fn non_positive_decision_is_rejected() {
    let mut session = TelemetrySession::open(encode);
    session.emit_decision("ES", Side::Sell, d(0.0), d(5400.125), "no size");
    session.emit_decision("ES", Side::Sell, d(1.0), d(-1.0), "no price");
    session.emit_decision("", Side::Sell, d(1.0), d(1.0), "no symbol");
    session.emit_decision("ES", Side::Sell, d(f64::NAN), d(1.0), "NaN size");
    assert_eq!(session.stats(), (0, 4));
    assert!(session.flush().is_empty());
}

#[test]
fn all_session_events_share_the_trace() {
    let mut session = TelemetrySession::open(encode);
    let trace = session.trace_id().to_string();
    session.emit_startup(1);
    session.emit_decision("NQ", Side::Buy, d(1.0), d(2.0), "r");
    for line in session.flush() {
        let v: serde_json::Value = serde_json::from_str(&line).unwrap();
        assert_eq!(v["trace_id"], serde_json::Value::String(trace.clone()));
    }
}

#[test]
fn encoder_failures_are_swallowed() {
    let mut session =
        TelemetrySession::open(|_e: &TelemetryEnvelope| -> Result<String, String> { Err("disk full".into()) });
    session.emit_startup(5);
    assert_eq!(session.stats(), (0, 0));
}
