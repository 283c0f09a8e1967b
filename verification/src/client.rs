//! The store client the gateway talks to: the three operations in terms of
//! dynamic values, with values encoded on the way in and decoded on the way
//! out, exactly as they are when the store sits behind an RPC channel. This
//! client runs against an in-process service; only a transport in front of it
//! could add failures, so here every operation succeeds.

use vstd::prelude::*;

use crate::codec::{decode, encode, lemma_decode_encode};
use crate::error::ServiceError;
use crate::rpc::{KeyRequest, KeyValueRequest, KeyValueService};
use crate::value::{DynModel, DynValue};

verus! {

/// A client over an in-process store service. Its model is the store's map.
pub struct KeyValueClient {
    service: KeyValueService,
}

impl View for KeyValueClient {
    type V = Map<Seq<char>, DynModel>;

    closed spec fn view(&self) -> Map<Seq<char>, DynModel> {
        self.service@
    }
}

impl KeyValueClient {
    /// Creates a client over the given service.
    pub fn new(service: KeyValueService) -> (client: KeyValueClient)
        ensures
            client@ == service@,
    {
        KeyValueClient { service }
    }

    /// Fetches the value stored under `key`, decoded back from wire form;
    /// absent when the key is absent. In process, this cannot fail.
    pub fn get_value(&self, key: &str) -> (r: Result<Option<DynValue>, ServiceError>)
        ensures
            match r {
                Ok(found) => match found {
                    Some(v) => self@.contains_key(key@) && v@ == self@[key@],
                    None => !self@.contains_key(key@),
                },
                Err(_) => false,
            },
    {
        let request = KeyRequest { key: key.to_string() };
        let response = self.service.get(&request);
        match response.value {
            Some(w) => {
                proof {
                    lemma_decode_encode(self@[key@]);
                }
                Ok(Some(decode(&w)))
            }
            None => Ok(None),
        }
    }

    /// Stores `value` under `key`, replacing any prior entry whole. Returns
    /// whether a prior entry existed. The value travels in wire form; since
    /// one is always attached, the service cannot reject it.
    pub fn put_value(&mut self, key: &str, value: DynValue) -> (r: Result<bool, ServiceError>)
        ensures
            match r {
                Ok(updated) => final(self)@ == old(self)@.insert(key@, value@) && updated == old(
                    self,
                )@.contains_key(key@),
                Err(_) => false,
            },
    {
        proof {
            lemma_decode_encode(value@);
        }
        let request = KeyValueRequest { key: key.to_string(), value: Some(encode(&value)) };
        match self.service.set(request) {
            Ok(response) => Ok(response.updated),
            Err(invalid) => Err(ServiceError { message: invalid.message }),
        }
    }

    /// Removes the entry under `key` if present. Returns whether an entry was
    /// removed. In process, this cannot fail.
    pub fn delete_value(&mut self, key: &str) -> (r: Result<bool, ServiceError>)
        ensures
            match r {
                Ok(deleted) => final(self)@ == old(self)@.remove(key@) && deleted == old(
                    self,
                )@.contains_key(key@),
                Err(_) => false,
            },
    {
        let request = KeyRequest { key: key.to_string() };
        let response = self.service.delete(&request);
        Ok(response.deleted)
    }
}

} // verus!
