//! The store-of-record service: the three RPC operations over the key-value
//! store, with values crossing the boundary in wire form. A set request whose
//! value is entirely absent is rejected with an invalid-argument error before
//! the store is touched; a request carrying a null value is a valid write.

use vstd::prelude::*;

use crate::codec::{decode, decode_model, encode, encode_model};
use crate::store::KeyValueStore;
use crate::value::DynModel;
use crate::wire::WireValue;

verus! {

/// A get or delete request: the key alone.
pub struct KeyRequest {
    pub key: String,
}

/// A set request: the key and the new value in wire form. An absent value is
/// a malformed request, distinct from a present null value.
pub struct KeyValueRequest {
    pub key: String,
    pub value: Option<WireValue>,
}

/// Reply to a get: the stored value in wire form, absent when the key is.
#[derive(Debug, PartialEq, Eq)]
pub struct GetResponse {
    pub value: Option<WireValue>,
}

/// Reply to a set: whether a prior entry was replaced.
#[derive(Debug, PartialEq, Eq, Clone)]
pub struct SetResponse {
    pub updated: bool,
}

/// Reply to a delete: whether an entry was removed.
#[derive(Debug, PartialEq, Eq, Clone)]
pub struct DeleteResponse {
    pub deleted: bool,
}

/// The one business-level failure the service can report: the client supplied
/// a structurally invalid request.
#[derive(Debug)]
pub struct InvalidArgument {
    pub message: String,
}

/// The store service: the key-value store behind the three RPC operations.
/// Its model is the store's map.
pub struct KeyValueService {
    store: KeyValueStore,
}

impl View for KeyValueService {
    type V = Map<Seq<char>, DynModel>;

    closed spec fn view(&self) -> Map<Seq<char>, DynModel> {
        self.store@
    }
}

impl KeyValueService {
    /// Creates a service over the given store.
    pub fn new(store: KeyValueStore) -> (service: KeyValueService)
        ensures
            service@ == store@,
    {
        KeyValueService { store }
    }

    /// Get: returns the stored value for the key, encoded to wire form, or an
    /// absent value when the key is absent. Never fails.
    pub fn get(&self, request: &KeyRequest) -> (response: GetResponse)
        ensures
            match response.value {
                Some(w) => self@.contains_key(request.key@) && w@ == encode_model(
                    self@[request.key@],
                ),
                None => !self@.contains_key(request.key@),
            },
    {
        match self.store.get(request.key.as_str()) {
            Some(v) => GetResponse { value: Some(encode(&v)) },
            None => GetResponse { value: None },
        }
    }

    /// Set: decodes the value and stores it under the key, replacing any prior
    /// entry whole. Fails — without touching the store — exactly when the
    /// request carries no value at all.
    pub fn set(&mut self, request: KeyValueRequest) -> (r: Result<SetResponse, InvalidArgument>)
        ensures
            match r {
                Ok(response) => {
                    &&& request.value is Some
                    &&& final(self)@ == old(self)@.insert(
                        request.key@,
                        decode_model(request.value->Some_0@),
                    )
                    &&& response.updated == old(self)@.contains_key(request.key@)
                },
                Err(_) => request.value is None && final(self)@ == old(self)@,
            },
    {
        let KeyValueRequest { key, value } = request;
        let Some(value) = value else {
            return Err(InvalidArgument { message: "value must be set".to_string() });
        };
        let updated = self.store.set(key, decode(&value));
        Ok(SetResponse { updated })
    }

    /// Delete: removes the entry for the key if present. Never fails; a
    /// missing key is a normal result, not an error.
    pub fn delete(&mut self, request: &KeyRequest) -> (response: DeleteResponse)
        ensures
            final(self)@ == old(self)@.remove(request.key@),
            response.deleted == old(self)@.contains_key(request.key@),
    {
        let deleted = self.store.delete(request.key.as_str());
        DeleteResponse { deleted }
    }
}

} // verus!
