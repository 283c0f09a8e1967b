//! The HTTP gateway's translation logic: each verb issues exactly one store
//! operation through the client and maps the outcome onto a status code and
//! an optional JSON body. A null request body on a put is rejected as a bad
//! request before any store operation is issued.

use vstd::prelude::*;

use crate::client::KeyValueClient;
use crate::error::ServiceError;
use crate::value::DynValue;

verus! {

pub const STATUS_OK: u16 = 200;

pub const STATUS_CREATED: u16 = 201;

pub const STATUS_NO_CONTENT: u16 = 204;

pub const STATUS_BAD_REQUEST: u16 = 400;

pub const STATUS_NOT_FOUND: u16 = 404;

pub const STATUS_INTERNAL_SERVER_ERROR: u16 = 500;

/// A reply at the HTTP surface: a status code, and a JSON body where the verb
/// carries one.
pub struct HttpReply {
    pub status: u16,
    pub body: Option<DynValue>,
}

/// Get of a key: 200 with the stored value as the body when the key is
/// present — a stored null comes back as a null body, found is not the same
/// as absent — and 404 with no body when it is not.
pub fn get_value(client: &KeyValueClient, key: &str) -> (r: Result<HttpReply, ServiceError>)
    ensures
        match r {
            Ok(reply) => {
                if client@.contains_key(key@) {
                    &&& reply.status == STATUS_OK
                    &&& reply.body matches Some(b) && b@ == client@[key@]
                } else {
                    reply.status == STATUS_NOT_FOUND && reply.body is None
                }
            },
            Err(_) => false,
        },
{
    let value = client.get_value(key)?;
    let reply = if let Some(value) = value {
        HttpReply { status: STATUS_OK, body: Some(value) }
    } else {
        HttpReply { status: STATUS_NOT_FOUND, body: None }
    };
    Ok(reply)
}

/// Put of a value under a key: 400 for a null body without touching the
/// store, 204 when a prior entry was replaced, 201 when the key is fresh.
pub fn put_value(client: &mut KeyValueClient, key: &str, body: DynValue) -> (r: Result<
    u16,
    ServiceError,
>)
    ensures
        match r {
            Ok(status) => {
                if body@ is Null {
                    status == STATUS_BAD_REQUEST && final(client)@ == old(client)@
                } else {
                    &&& final(client)@ == old(client)@.insert(key@, body@)
                    &&& status == if old(client)@.contains_key(key@) {
                        STATUS_NO_CONTENT
                    } else {
                        STATUS_CREATED
                    }
                }
            },
            Err(_) => false,
        },
{
    if matches!(body, DynValue::Null) {
        return Ok(STATUS_BAD_REQUEST);
    }
    let updated = client.put_value(key, body)?;
    let status = if updated {
        STATUS_NO_CONTENT
    } else {
        STATUS_CREATED
    };
    Ok(status)
}

/// Delete of a key: 200 when an entry was removed, 404 when the key was
/// already absent.
pub fn delete_value(client: &mut KeyValueClient, key: &str) -> (r: Result<u16, ServiceError>)
    ensures
        match r {
            Ok(status) => {
                &&& final(client)@ == old(client)@.remove(key@)
                &&& status == if old(client)@.contains_key(key@) {
                    STATUS_OK
                } else {
                    STATUS_NOT_FOUND
                }
            },
            Err(_) => false,
        },
{
    let deleted = client.delete_value(key)?;
    let status = if deleted {
        STATUS_OK
    } else {
        STATUS_NOT_FOUND
    };
    Ok(status)
}

} // verus!
