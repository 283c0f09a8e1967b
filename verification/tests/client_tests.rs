use kv_service::client::KeyValueClient;
use kv_service::rpc::KeyValueService;
use kv_service::store::KeyValueStore;
use kv_service::value::DynValue;

fn fresh_client() -> KeyValueClient {
    KeyValueClient::new(KeyValueService::new(KeyValueStore::new()))
}

#[test]
fn key_value_service_test_get_value() {
    let mut client = fresh_client();
    client.put_value("key", DynValue::Str("value".to_string())).unwrap();
    let result = client.get_value("key").unwrap();
    assert_eq!(result, Some(DynValue::Str("value".to_string())));
}

#[test]
fn key_value_service_test_put_value() {
    let mut client = fresh_client();
    client.put_value("key", DynValue::Str("before".to_string())).unwrap();
    let result = client.put_value("key", DynValue::Str("value".to_string())).unwrap();
    assert_eq!(result, true);
}

#[test]
fn key_value_service_test_delete_value() {
    let mut client = fresh_client();
    client.put_value("key", DynValue::Bool(false)).unwrap();
    let result = client.delete_value("key").unwrap();
    assert_eq!(result, true);
}

#[test]
fn test_get_value_absent_key() {
    let client = fresh_client();
    let result = client.get_value("key").unwrap();
    assert_eq!(result, None);
}

#[test]
fn test_value_survives_wire_round_trip_through_client() {
    let mut client = fresh_client();
    let value = DynValue::Object(vec![
        ("n".to_string(), DynValue::Number(3.25f64.to_bits())),
        ("s".to_string(), DynValue::Str("x".to_string())),
    ]);
    client.put_value("key", value.duplicate()).unwrap();
    let result = client.get_value("key").unwrap();
    assert_eq!(result, Some(value));
}
