use telemetry_core::ids::{ClientOrderId, DecisionId, SymbolId, TraceId};

#[test]
fn trace_id_text_is_hyphenated_lower_hex() {
    let id = TraceId(0x550e8400_e29b_41d4_a716_446655440000);
    assert_eq!(id.to_string(), "550e8400-e29b-41d4-a716-446655440000");
    assert_eq!(TraceId(0).to_string(), "00000000-0000-0000-0000-000000000000");
}

#[test]
fn new_ids_are_version_4() {
    for v in [TraceId::new().0, DecisionId::new().0, ClientOrderId::new().0] {
        assert_eq!((v >> 76) & 0xF, 4);
        assert_eq!((v >> 62) & 0x3, 2);
        assert_eq!(&TraceId(v).to_string()[14..15], "4");
        assert_ne!(v, 0);
    }
    assert_ne!(TraceId::new(), TraceId::new());
}

#[test]
fn symbol_text() {
    assert_eq!(SymbolId("ES".into()).to_string(), "ES");
}
