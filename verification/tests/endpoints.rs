use telemetry_core::cache::price_key;
use telemetry_core::events::{
    OrderAckEvent, SystemLatencyEvent, TelemetryEvent,
};
use telemetry_core::ids::{ClientOrderId, OrderId, SymbolId};
use telemetry_core::quant::{bearer_token, health_url, quote_url};

#[test]
fn quant_requests() {
    assert_eq!(quote_url("https://api.example.com/v1", "ES"), "https://api.example.com/v1/quote/ES");
    assert_eq!(health_url("https://api.example.com/v1"), "https://api.example.com/v1/health");
    assert_eq!(bearer_token("k3y"), "Bearer k3y");
}

#[test]
fn cache_keys() {
    assert_eq!(price_key("BTC/USD"), "radu:price:BTC/USD");
}

#[test]
fn event_type_names() {
    let ack = TelemetryEvent::OrderAck(OrderAckEvent {
        client_order_id: ClientOrderId(1),
        order_id: OrderId("x".into()),
        symbol: SymbolId("ES".into()),
    });
    assert_eq!(ack.event_type(), "order.ack");
    let lat = TelemetryEvent::SystemLatency(SystemLatencyEvent {
        component: "c".into(),
        latency_us: 1,
        percentile: "p50".into(),
    });
    assert_eq!(lat.event_type(), "system.latency");
}
