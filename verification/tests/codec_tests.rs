use kv_service::codec::{decode, encode};
use kv_service::value::DynValue;
use kv_service::wire::{WireKind, WireValue};

#[test]
fn test_prost_to_serde_json() {
    let value = WireValue { kind: Some(WireKind::Str("test".to_string())) };
    let result = decode(&value);
    assert_eq!(result, DynValue::Str("test".to_string()));
}

#[test]
fn test_serde_json_to_prost() {
    let value = DynValue::Str("test".to_string());
    let result = encode(&value);
    assert_eq!(result, WireValue { kind: Some(WireKind::Str("test".to_string())) });
}

#[test]
fn test_prost_to_serde_json_null() {
    let value = WireValue { kind: Some(WireKind::Null) };
    let result = decode(&value);
    assert_eq!(result, DynValue::Null);
}

#[test]
fn test_serde_json_to_prost_null() {
    let value = DynValue::Null;
    let result = encode(&value);
    assert_eq!(result, WireValue { kind: Some(WireKind::Null) });
}

#[test]
fn test_prost_to_serde_json_number() {
    let value = WireValue { kind: Some(WireKind::Number(1.0f64.to_bits())) };
    let result = decode(&value);
    assert_eq!(result, DynValue::Number(1.0f64.to_bits()));
}

#[test]
fn test_serde_json_to_prost_number() {
    let value = DynValue::Number(1.0f64.to_bits());
    let result = encode(&value);
    assert_eq!(result, WireValue { kind: Some(WireKind::Number(1.0f64.to_bits())) });
}

#[test]
fn test_prost_to_serde_json_bool() {
    let value = WireValue { kind: Some(WireKind::Bool(true)) };
    let result = decode(&value);
    assert_eq!(result, DynValue::Bool(true));
}

#[test]
fn test_serde_json_to_prost_bool() {
    let value = DynValue::Bool(true);
    let result = encode(&value);
    assert_eq!(result, WireValue { kind: Some(WireKind::Bool(true)) });
}

#[test]
fn test_prost_to_serde_json_struct() {
    let value = WireValue {
        kind: Some(WireKind::Struct(vec![(
            "test".to_string(),
            WireValue { kind: Some(WireKind::Str("test".to_string())) },
        )])),
    };
    let result = decode(&value);
    assert_eq!(
        result,
        DynValue::Object(vec![("test".to_string(), DynValue::Str("test".to_string()))])
    );
}

#[test]
fn test_serde_json_to_prost_struct() {
    let value = DynValue::Object(vec![("test".to_string(), DynValue::Str("test".to_string()))]);
    let result = encode(&value);
    assert_eq!(
        result,
        WireValue {
            kind: Some(WireKind::Struct(vec![(
                "test".to_string(),
                WireValue { kind: Some(WireKind::Str("test".to_string())) },
            )])),
        }
    );
}

#[test]
fn test_prost_to_serde_json_list() {
    let value = WireValue {
        kind: Some(WireKind::List(vec![WireValue {
            kind: Some(WireKind::Str("test".to_string())),
        }])),
    };
    let result = decode(&value);
    assert_eq!(result, DynValue::Array(vec![DynValue::Str("test".to_string())]));
}

#[test]
fn test_serde_json_to_prost_list() {
    let value = DynValue::Array(vec![DynValue::Str("test".to_string())]);
    let result = encode(&value);
    assert_eq!(
        result,
        WireValue {
            kind: Some(WireKind::List(vec![WireValue {
                kind: Some(WireKind::Str("test".to_string())),
            }])),
        }
    );
}

#[test]
fn test_decode_missing_kind_is_null() {
    let value = WireValue { kind: None };
    let result = decode(&value);
    assert_eq!(result, DynValue::Null);
}

#[test]
fn test_round_trip_compound_value() {
    let value = DynValue::Object(vec![
        ("name".to_string(), DynValue::Str("widget".to_string())),
        ("price".to_string(), DynValue::Number(19.5f64.to_bits())),
        ("in_stock".to_string(), DynValue::Bool(true)),
        ("comment".to_string(), DynValue::Null),
        (
            "tags".to_string(),
            DynValue::Array(vec![
                DynValue::Str("a".to_string()),
                DynValue::Str("a".to_string()),
                DynValue::Str("b".to_string()),
            ]),
        ),
        ("empty_list".to_string(), DynValue::Array(vec![])),
        ("empty_object".to_string(), DynValue::Object(vec![])),
    ]);
    let round_tripped = decode(&encode(&value));
    assert_eq!(round_tripped, value);
}

#[test]
fn test_round_trip_preserves_list_order_and_duplicates() {
    let value = DynValue::Array(vec![
        DynValue::Number(2.0f64.to_bits()),
        DynValue::Number(1.0f64.to_bits()),
        DynValue::Number(2.0f64.to_bits()),
    ]);
    assert_eq!(decode(&encode(&value)), value);
}

#[test]
fn test_round_trip_non_finite_number_bits() {
    let value = DynValue::Number(f64::NAN.to_bits());
    assert_eq!(decode(&encode(&value)), value);
    let value = DynValue::Number(f64::INFINITY.to_bits());
    assert_eq!(decode(&encode(&value)), value);
}

#[test]
fn test_wire_round_trip_of_well_formed_wire_value() {
    let wire = WireValue {
        kind: Some(WireKind::Struct(vec![(
            "inner".to_string(),
            WireValue { kind: Some(WireKind::List(vec![WireValue { kind: Some(WireKind::Null) }])) },
        )])),
    };
    let encoded_back = encode(&decode(&wire));
    assert_eq!(encoded_back, wire);
}

#[test]
fn test_wire_missing_kind_re_encodes_as_null_kind() {
    let wire = WireValue { kind: None };
    let encoded_back = encode(&decode(&wire));
    assert_eq!(encoded_back, WireValue { kind: Some(WireKind::Null) });
}
