//! The gateway's error type: any failure that reaches the HTTP surface that
//! is not a defined result turns into an internal-server-error reply carrying
//! the message in a JSON body.

use vstd::prelude::*;

use crate::gateway::{HttpReply, STATUS_INTERNAL_SERVER_ERROR};
use crate::value::{dyn_field_models, DynModel, DynValue};

verus! {

/// An unexpected failure on the way from the HTTP surface to the store:
/// carried as a message and surfaced as a 500 reply.
#[derive(Debug)]
pub struct ServiceError {
    pub message: String,
}

/// The JSON body a failure is reported with: an object with one `error`
/// field holding the message.
pub open spec fn error_body_model(message: Seq<char>) -> DynModel {
    DynModel::Object(seq![("error"@, DynModel::Str(message))])
}

impl ServiceError {
    /// Turns the error into its HTTP reply: internal server error, with the
    /// message under the `error` field of the JSON body.
    pub fn into_response(self) -> (r: HttpReply)
        ensures
            r.status == STATUS_INTERNAL_SERVER_ERROR,
            r.body matches Some(b) && b@ == error_body_model(self.message@),
    {
        let mut fields: Vec<(String, DynValue)> = Vec::new();
        fields.push(("error".to_string(), DynValue::Str(self.message)));
        let body = DynValue::Object(fields);
        proof {
            assert(dyn_field_models(fields) =~= seq![("error"@, DynModel::Str(self.message@))]);
        }
        HttpReply { status: STATUS_INTERNAL_SERVER_ERROR, body: Some(body) }
    }
}

} // verus!
