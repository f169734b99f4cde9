//! The exchange with the renderer: what is sent, and what an outcome of
//! the exchange means for the page.
use crate::error::InertiaError;
use crate::page::InertiaSSRPage;
use crate::text::views_of;
use vstd::prelude::*;

verus! {

/// The seconds after which a call of the renderer is given up.
pub const SSR_TIMEOUT_SECS: u64 = 5;

/// The media type of what is sent to the renderer and of what it answers.
pub const APPLICATION_JSON: &'static str = "application/json";

/// How a call of the renderer ended.
pub enum SsrOutcome {
    /// The renderer was not reached, or did not answer in time. The
    /// field holds the reason.
    Unreachable(String),
    /// The renderer answered with what is no pre-rendered page. The field
    /// holds the reason.
    Malformed(String),
    /// The renderer answered with the fragments of the page.
    Rendered { head: Vec<String>, body: String },
}

/// The cause of the failure for a renderer that was not reached.
pub open spec fn unreachable_cause(reason: Seq<char>) -> Seq<char> {
    "Failed to render the page at the SSR Server: "@ + reason
}

/// The cause of the failure for an answer that is no pre-rendered page.
pub open spec fn malformed_cause(reason: Seq<char>) -> Seq<char> {
    "Failed to desserialize InertiaSSRPage object: "@ + reason
}

/// The pre-rendered page that a call of the renderer gave, or the failure
/// that it ended in.
pub fn request_page_render(outcome: SsrOutcome) -> (rendered: Result<InertiaSSRPage, InertiaError>)
    ensures
        match outcome {
            SsrOutcome::Rendered { head, body } => {
                &&& rendered matches Ok(page)
                &&& page.head() == views_of(head@)
                &&& page.body() == body@
            },
            SsrOutcome::Unreachable(reason) => {
                &&& rendered matches Err(InertiaError::SsrError(cause))
                &&& cause@ == unreachable_cause(reason@)
            },
            SsrOutcome::Malformed(reason) => {
                &&& rendered matches Err(InertiaError::SsrError(cause))
                &&& cause@ == malformed_cause(reason@)
            },
        },
{
    match outcome {
        SsrOutcome::Unreachable(reason) => {
            let mut cause = String::from_str("Failed to render the page at the SSR Server: ");
            cause.append(reason.as_str());
            Err(InertiaError::SsrError(cause))
        },
        SsrOutcome::Malformed(reason) => {
            let mut cause = String::from_str("Failed to desserialize InertiaSSRPage object: ");
            cause.append(reason.as_str());
            Err(InertiaError::SsrError(cause))
        },
        SsrOutcome::Rendered { head, body } => Ok(InertiaSSRPage::new(head, body)),
    }
}

} // verus!
