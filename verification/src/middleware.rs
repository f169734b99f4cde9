//! What the middleware decides around the handling of a request: which
//! validation errors every page shares, whether the request is let
//! through, and which status a redirect goes out with.
use crate::inertia::Inertia;
use crate::json::{json_of_optional_object, optional_entries, optional_object_to_value};
use crate::props::{InertiaProp, InertiaProps};
use crate::request::RequestHeaders;
use crate::response::{
    InertiaResponse, STATUS_FOUND, STATUS_MOVED_PERMANENTLY, STATUS_SEE_OTHER,
};
use crate::temporary_session::InertiaTemporarySession;
use serde_json::Value;
use vstd::prelude::*;

verus! {

/// The methods of a request that the protocol tells apart.
#[derive(Debug, Clone, Copy, PartialEq, Eq)]
pub enum HttpMethod {
    Get,
    Post,
    Put,
    Patch,
    Delete,
}

/// The name under which the validation errors are shared.
pub const ERRORS: &'static str = "errors";

/// What the middleware does with a request.
pub enum Passage {
    /// The request goes on to the service.
    Forward,
    /// The request is answered at once, with `response`. Its temporary
    /// session, if it has one, goes back to the request.
    Refresh { response: InertiaResponse },
}

/// The shared properties with the validation errors of the temporary
/// session, if there is one, among them.
pub open spec fn with_errors<F>(
    shared_props: Map<Seq<char>, InertiaProp<F>>,
    session: Option<InertiaTemporarySession>,
) -> Map<Seq<char>, InertiaProp<F>> {
    match session {
        Some(session) => shared_props.insert(
            ERRORS@,
            InertiaProp::Always(json_of_optional_object(optional_entries(session.errors))),
        ),
        None => shared_props,
    }
}

/// Shares the validation errors of the temporary session, if the request
/// has one, under the name `errors`: as a property that every response
/// carries. A property that was shared under that name gives way.
pub fn share_errors<F>(
    shared_props: &mut InertiaProps<F>,
    session: &Option<InertiaTemporarySession>,
)
    ensures
        final(shared_props)@ == with_errors(old(shared_props)@, *session),
{
    if let Some(request_props) = session {
        share_always(shared_props, ERRORS, optional_object_to_value(&request_props.errors));
    }
}

/// Shares `value` under `name` as a property that every response
/// carries. A property that was shared under that name gives way.
pub fn share_always<F>(shared_props: &mut InertiaProps<F>, name: &str, value: Value)
    ensures
        final(shared_props)@ == old(shared_props)@.insert(name@, InertiaProp::Always(value)),
{
    shared_props.insert(String::from_str(name), InertiaProp::Always(value));
}

/// Whether the middleware lets a request through: the engine is set up
/// and the client's assets are the server's, or the client reports none.
pub open spec fn lets_through<R, T>(inertia: Option<&Inertia<R, T>>, headers: RequestHeaders) -> bool {
    inertia matches Some(inertia) && headers.version_is(inertia.version@)
}

/// Decides whether a request goes on to the service. A client with stale
/// assets, and any request while the engine is not set up, is sent to
/// `url` again.
pub fn check_passage<R, T>(inertia: Option<&Inertia<R, T>>, headers: &RequestHeaders, url: &str) -> (passage:
    Passage)
    ensures
        match passage {
            Passage::Forward => lets_through(inertia, *headers),
            Passage::Refresh { response } => !lets_through(inertia, *headers)
                && response.is_location(headers.hydrated(), url@),
        },
{
    let is_latest_version = match inertia {
        Some(inertia) => headers.check_inertia_version(inertia.version),
        None => false,
    };
    if is_latest_version {
        Passage::Forward
    } else {
        Passage::Refresh { response: InertiaResponse::location(headers.is_inertia_request(), url) }
    }
}

/// The status that a response of the service goes out with.
pub open spec fn outgoing_status(method: HttpMethod, status: u16) -> u16 {
    if (method is Patch || method is Put || method is Delete) && (status
        == STATUS_MOVED_PERMANENTLY || status == STATUS_FOUND) {
        STATUS_SEE_OTHER
    } else {
        status
    }
}

/// Rewrites the status of a redirect that answers a `PUT`, `PATCH` or
/// `DELETE` request: a moved-permanently or found becomes a see-other, so
/// that the client follows it with a `GET`. Any other status stays.
pub fn redirect_status(method: HttpMethod, status: u16) -> (outgoing: u16)
    ensures
        outgoing == outgoing_status(method, status),
{
    let rewrites = match method {
        HttpMethod::Patch => true,
        HttpMethod::Put => true,
        HttpMethod::Delete => true,
        _ => false,
    };
    if rewrites && (status == STATUS_MOVED_PERMANENTLY || status == STATUS_FOUND) {
        STATUS_SEE_OTHER
    } else {
        status
    }
}

} // verus!
