//! What survives a forced refresh: the validation errors of the previous
//! request and the url it came from.
use crate::json::JsonMap;
use vstd::prelude::*;

verus! {

/// `InertiaTemporarySession` holds the data that is flashed into the
/// session for the next request: the middleware shares its errors with the
/// page, and a forced refresh hands it back to be persisted again.
#[derive(Clone, Debug, PartialEq, Eq)]
pub struct InertiaTemporarySession {
    pub errors: Option<JsonMap>,
    pub prev_req_url: String,
}

impl Default for InertiaTemporarySession {
    fn default() -> (session: Self)
        ensures
            session.errors is None,
            session.prev_req_url@ == "/"@,
    {
        InertiaTemporarySession { errors: None, prev_req_url: String::from_str("/") }
    }
}

} // verus!
