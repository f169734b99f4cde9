//! The root template: where the fragments of a page go.
//!
//! A root template marks the place of the page's head elements and the
//! place of its body. A pre-rendered page fills both with its fragments;
//! a page that was not pre-rendered gets an empty head and, as its body,
//! the container that the client hydrates from the page's data.
use crate::error::InertiaError;
use crate::inertia::ViewData;
use crate::text::{join_with, replace_all, replaced};
use vstd::prelude::*;

verus! {

/// Marks the place of the body in a root template.
pub const BODY_PLACEHOLDER: &'static str = "@inertia::body";

/// Marks the place of the head elements in a root template.
pub const HEAD_PLACEHOLDER: &'static str = "@inertia::head";

/// The container that the client hydrates, holding the page in the wire
/// format.
pub open spec fn hydration_container(page_json: Seq<char>) -> Seq<char> {
    "<div id='app' data-page='"@ + page_json + "'></div>\n"@
}

/// A root template with its two places filled.
pub open spec fn filled(html: Seq<char>, head: Seq<char>, body: Seq<char>) -> Seq<char> {
    replaced(replaced(html, BODY_PLACEHOLDER@, body), HEAD_PLACEHOLDER@, head)
}

/// The cause of the failure for a page that has no wire format.
pub open spec fn page_not_serializable(page_debug: Seq<char>) -> Seq<char> {
    "Failed to serialize view_data.page: "@ + page_debug
}

/// The failure for a root template that cannot be opened.
pub fn layout_unreadable(path: &str, reason: &str) -> (error: InertiaError)
    ensures
        error matches InertiaError::RenderError(cause) && cause@
            == "Failed to open root layout at "@ + path@ + ": "@ + reason@,
{
    let mut cause = String::from_str("Failed to open root layout at ");
    cause.append(path);
    cause.append(": ");
    cause.append(reason);
    InertiaError::RenderError(cause)
}

/// The failure for a root template that is not text.
pub fn layout_not_text(reason: &str) -> (error: InertiaError)
    ensures
        error matches InertiaError::RenderError(cause) && cause@
            == "Failed to read file contents: "@ + reason@,
{
    let mut cause = String::from_str("Failed to read file contents: ");
    cause.append(reason);
    InertiaError::RenderError(cause)
}

/// Fills the root template `html` for `view_data`.
///
/// `page_json` is the page of `view_data` in the wire format or, where it
/// has none, a rendering of the page for the error message. It is looked
/// at only for a page that was not pre-rendered, and such a page without a
/// wire format is the only failure.
pub fn template_resolver(
    html: &str,
    view_data: &ViewData,
    page_json: &Result<String, String>,
) -> (rendered: Result<String, InertiaError>)
    ensures
        match view_data.ssr_page {
            Some(ssr) => rendered matches Ok(document) && document@ == filled(
                html@,
                join_with(ssr.head(), "\n"@),
                ssr.body(),
            ),
            None => match *page_json {
                Ok(json) => rendered matches Ok(document) && document@ == filled(
                    html@,
                    Seq::empty(),
                    hydration_container(json@),
                ),
                Err(page_debug) => rendered matches Err(InertiaError::SerializationError(cause))
                    && cause@ == page_not_serializable(page_debug@),
            },
        },
{
    match &view_data.ssr_page {
        Some(ssr) => {
            let document = replace_all(html, BODY_PLACEHOLDER, ssr.get_body().as_str());
            Ok(replace_all(document.as_str(), HEAD_PLACEHOLDER, ssr.get_head().as_str()))
        },
        None => {
            let stringified_page = match page_json {
                Err(page_debug) => {
                    let mut cause = String::from_str("Failed to serialize view_data.page: ");
                    cause.append(page_debug.as_str());
                    return Err(InertiaError::SerializationError(cause));
                },
                Ok(json) => json,
            };
            let mut container = String::from_str("<div id='app' data-page='");
            container.append(stringified_page.as_str());
            container.append("'></div>\n");
            let document = replace_all(html, BODY_PLACEHOLDER, container.as_str());
            let document = replace_all(document.as_str(), HEAD_PLACEHOLDER, "");
            proof {
                reveal_strlit("");
                assert(""@ == Seq::<char>::empty());
            }
            Ok(document)
        },
    }
}

} // verus!
