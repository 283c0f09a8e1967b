use kv_service::client::KeyValueClient;
use kv_service::error::ServiceError;
use kv_service::gateway::{
    delete_value, get_value, put_value, STATUS_BAD_REQUEST, STATUS_CREATED,
    STATUS_INTERNAL_SERVER_ERROR, STATUS_NOT_FOUND, STATUS_NO_CONTENT, STATUS_OK,
};
use kv_service::rpc::KeyValueService;
use kv_service::store::KeyValueStore;
use kv_service::value::DynValue;

fn fresh_client() -> KeyValueClient {
    KeyValueClient::new(KeyValueService::new(KeyValueStore::new()))
}

#[test]
fn key_value_controller_test_get_value() {
    let key = "key".to_string();
    let value = DynValue::Str("value".to_string());
    let mut client = fresh_client();
    put_value(&mut client, &key, value.duplicate()).unwrap();

    let reply = get_value(&client, &key).unwrap();
    assert_eq!(reply.status, STATUS_OK);
    assert_eq!(reply.body, Some(value));
}

#[test]
fn key_value_controller_test_put_value() {
    let key = "key".to_string();
    let value = DynValue::Str("value".to_string());
    let mut client = fresh_client();
    put_value(&mut client, &key, DynValue::Str("before".to_string())).unwrap();

    let status = put_value(&mut client, &key, value).unwrap();
    assert_eq!(status, STATUS_NO_CONTENT);
}

#[test]
fn key_value_controller_test_delete_value() {
    let key = "key".to_string();
    let mut client = fresh_client();
    put_value(&mut client, &key, DynValue::Bool(true)).unwrap();

    let status = delete_value(&mut client, &key).unwrap();
    assert_eq!(status, STATUS_OK);
}

#[test]
fn test_get_value_not_found() {
    let key = "key".to_string();
    let client = fresh_client();

    let reply = get_value(&client, &key).unwrap();
    assert_eq!(reply.status, STATUS_NOT_FOUND);
    assert_eq!(reply.body, None);
}

#[test]
fn test_delete_value_not_found() {
    let key = "key".to_string();
    let mut client = fresh_client();

    let status = delete_value(&mut client, &key).unwrap();
    assert_eq!(status, STATUS_NOT_FOUND);
}

#[test]
fn test_put_value_created() {
    let key = "key".to_string();
    let value = DynValue::Str("value".to_string());
    let mut client = fresh_client();

    let status = put_value(&mut client, &key, value).unwrap();
    assert_eq!(status, STATUS_CREATED);
}

#[test]
fn test_put_value_null() {
    let key = "key".to_string();
    let value = DynValue::Null;
    let mut client = fresh_client();

    let status = put_value(&mut client, &key, value).unwrap();
    assert_eq!(status, STATUS_BAD_REQUEST);
    let reply = get_value(&client, &key).unwrap();
    assert_eq!(reply.status, STATUS_NOT_FOUND);
}

#[test]
fn test_service_error_becomes_internal_server_error_reply() {
    let error = ServiceError { message: "Internal error".to_string() };
    let reply = error.into_response();
    assert_eq!(reply.status, STATUS_INTERNAL_SERVER_ERROR);
    assert_eq!(
        reply.body,
        Some(DynValue::Object(vec![(
            "error".to_string(),
            DynValue::Str("Internal error".to_string()),
        )]))
    );
}

#[test]
fn test_put_then_get_stored_null_value_found() {
    // A null stored through the service (not through the HTTP put, which
    // rejects null bodies) is found by a get: found-null is not absent.
    let mut client = fresh_client();
    client.put_value("k", DynValue::Null).unwrap();
    let reply = get_value(&client, "k").unwrap();
    assert_eq!(reply.status, STATUS_OK);
    assert_eq!(reply.body, Some(DynValue::Null));
}
