use actr_node_bridge::types::{boundary_from_native, native_from_boundary};
use actr_node_bridge::{
    ActrId, ActrType, DataStream, MetadataEntry, NativeActrId, NativeDataStream,
    NativeRpcEnvelope, Realm, RpcEnvelopeBridge,
};

fn echo_type() -> ActrType {
    ActrType { manufacturer: "acme".to_string(), name: "echo".to_string() }
}

#[test]
fn serial_within_range_keeps_its_value() {
    assert_eq!(boundary_from_native(0), 0);
    assert_eq!(boundary_from_native(42), 42);
    assert_eq!(boundary_from_native(9_223_372_036_854_775_807), i64::MAX);
    assert_eq!(native_from_boundary(i64::MAX), 9_223_372_036_854_775_807);
}

#[test]
fn serial_above_range_wraps_to_negative() {
    assert_eq!(boundary_from_native(9_223_372_036_854_775_808), i64::MIN);
    assert_eq!(boundary_from_native(u64::MAX), -1);
    assert_eq!(native_from_boundary(-1), u64::MAX);
    assert_eq!(native_from_boundary(i64::MIN), 9_223_372_036_854_775_808);
}

#[test]
fn actr_id_round_trip_is_lossless() {
    for serial in [0u64, 1, 7_000_000_000, 9_223_372_036_854_775_807] {
        let native = NativeActrId { realm: Realm { realm_id: 3 }, serial_number: serial, actr_type: echo_type() };
        let boundary = ActrId::from_native(native.clone());
        assert_eq!(boundary.serial_number as u64, serial);
        assert_eq!(boundary.realm, Realm { realm_id: 3 });
        let back = boundary.into_native();
        assert_eq!(back.serial_number, serial);
        assert_eq!(back.realm.realm_id, 3);
        assert_eq!(back.actr_type.manufacturer, "acme");
        assert_eq!(back.actr_type.name, "echo");
    }
}

#[test]
fn data_stream_round_trip_keeps_fields() {
    let native = NativeDataStream {
        stream_id: "s1".to_string(),
        sequence: 17,
        payload: vec![1, 2, 3],
        metadata: vec![
            MetadataEntry { key: "k".to_string(), value: "a".to_string() },
            MetadataEntry { key: "k".to_string(), value: "b".to_string() },
        ],
        timestamp_ms: Some(-5),
    };
    let chunk = DataStream::from_native(native);
    assert_eq!(chunk.stream_id, "s1");
    assert_eq!(chunk.sequence, 17);
    assert_eq!(chunk.payload, vec![1, 2, 3]);
    assert_eq!(chunk.metadata.len(), 2);
    assert_eq!(chunk.metadata[0].value, "a");
    assert_eq!(chunk.metadata[1].value, "b");
    assert_eq!(chunk.timestamp_ms, Some(-5));
    let back = chunk.into_native();
    assert_eq!(back.sequence, 17);
    assert_eq!(back.metadata[1].key, "k");
}

#[test]
fn data_stream_large_sequence_crosses_as_negative() {
    let native = NativeDataStream {
        stream_id: "s".to_string(),
        sequence: u64::MAX - 1,
        payload: vec![],
        metadata: vec![],
        timestamp_ms: None,
    };
    let chunk = DataStream::from_native(native);
    assert_eq!(chunk.sequence, -2);
    assert_eq!(chunk.into_native().sequence, u64::MAX - 1);
}

#[test]
fn signal_envelope_gets_empty_payload() {
    let env = NativeRpcEnvelope { route_key: "svc.ping".to_string(), payload: None, request_id: "r1".to_string() };
    let b = RpcEnvelopeBridge::from_native(env);
    assert_eq!(b.route_key, "svc.ping");
    assert_eq!(b.request_id, "r1");
    assert!(b.payload.is_empty());
}

#[test]
fn envelope_payload_is_kept() {
    let env = NativeRpcEnvelope { route_key: "svc.echo".to_string(), payload: Some(vec![9, 8, 7]), request_id: "r2".to_string() };
    let b = RpcEnvelopeBridge::from_native(env);
    assert_eq!(b.payload, vec![9, 8, 7]);
}
