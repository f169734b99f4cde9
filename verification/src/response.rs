//! Responses, described by status, headers and body. The web framework
//! turns a description into its own response type.
use crate::error::InertiaError;
use crate::headers::InertiaHeader;
use vstd::prelude::*;

verus! {

pub const STATUS_OK: u16 = 200;

pub const STATUS_MOVED_PERMANENTLY: u16 = 301;

pub const STATUS_FOUND: u16 = 302;

pub const STATUS_SEE_OTHER: u16 = 303;

pub const STATUS_CONFLICT: u16 = 409;

pub const STATUS_INTERNAL_SERVER_ERROR: u16 = 500;

pub const LOCATION: &'static str = "location";

pub const CONTENT_TYPE: &'static str = "content-type";

pub const CONTENT_TYPE_HTML: &'static str = "text/html; charset=utf-8";

pub const CONTENT_TYPE_JSON: &'static str = "application/json";

/// A response: its status, its headers in order, and its body.
#[derive(Debug, Clone, PartialEq, Eq)]
pub struct InertiaResponse {
    pub status: u16,
    pub headers: Vec<(String, String)>,
    pub body: String,
}

impl InertiaResponse {
    /// The headers as pairs of texts.
    pub open spec fn header_list(&self) -> Seq<(Seq<char>, Seq<char>)> {
        self.headers@.map_values(|h: (String, String)| (h.0@, h.1@))
    }

    /// Whether the response has the given status, headers and body.
    pub open spec fn is(
        &self,
        status: u16,
        headers: Seq<(Seq<char>, Seq<char>)>,
        body: Seq<char>,
    ) -> bool {
        self.status == status && self.header_list() =~= headers && self.body@ =~= body
    }

    /// A response without headers.
    fn bare(status: u16, body: String) -> (response: Self)
        ensures
            response.is(status, Seq::empty(), body@),
    {
        let response = InertiaResponse { status, headers: Vec::new(), body };
        assert(response.header_list() == Seq::<(Seq<char>, Seq<char>)>::empty());
        response
    }

    /// Adds a header after those that the response has.
    fn with_header(self, name: &str, value: String) -> (response: Self)
        ensures
            response.is(self.status, self.header_list().push((name@, value@)), self.body@),
    {
        let InertiaResponse { status, headers, body } = self;
        let mut headers = headers;
        let ghost before = headers@;
        headers.push((String::from_str(name), value));
        let response = InertiaResponse { status, headers, body };
        assert(response.header_list() == self.header_list().push((name@, value@)));
        response
    }

    /// Whether the response sends the client to `url`: with a conflict and
    /// the protocol's location header where the client is hydrated, with
    /// an ordinary redirect where it is not.
    pub open spec fn is_location(&self, hydrated: bool, url: Seq<char>) -> bool {
        if hydrated {
            self.is(
                STATUS_CONFLICT,
                seq![(InertiaHeader::InertiaLocation("").name(), url)],
                Seq::empty(),
            )
        } else {
            self.is(STATUS_FOUND, seq![(LOCATION@, url)], Seq::empty())
        }
    }

    /// Sends the client to `url`. A hydrated client gets a conflict with
    /// the protocol's location header, which makes it load the url afresh;
    /// a browser gets an ordinary redirect.
    pub fn location(hydrated: bool, url: &str) -> (response: Self)
        ensures
            response.is_location(hydrated, url@),
    {
        if !hydrated {
            return Self::bare(STATUS_FOUND, String::new()).with_header(
                LOCATION,
                String::from_str(url),
            );
        }
        let (name, value) = InertiaHeader::InertiaLocation(url).convert();
        Self::bare(STATUS_CONFLICT, String::new()).with_header(name, value)
    }

    /// Whether the response carries `body` as a page of the protocol.
    pub open spec fn is_page(&self, body: Seq<char>) -> bool {
        self.is(STATUS_OK, seq![(InertiaHeader::Inertia.name(), InertiaHeader::Inertia.value())], body)
    }

    /// The response that carries a page as data. `body` is the page in the
    /// wire format.
    pub fn page(body: String) -> (response: Self)
        ensures
            response.is_page(body@),
    {
        let (name, value) = InertiaHeader::Inertia.convert();
        Self::bare(STATUS_OK, body).with_header(name, value)
    }

    /// Whether the response carries `html` as a full document.
    pub open spec fn is_html(&self, html: Seq<char>) -> bool {
        self.is(
            STATUS_OK,
            seq![
                (InertiaHeader::Inertia.name(), InertiaHeader::Inertia.value()),
                (CONTENT_TYPE@, CONTENT_TYPE_HTML@),
            ],
            html,
        )
    }

    /// The response that carries a full document.
    pub fn html(html: String) -> (response: Self)
        ensures
            response.is_html(html@),
    {
        let (name, value) = InertiaHeader::Inertia.convert();
        Self::bare(STATUS_OK, html).with_header(name, value).with_header(
            CONTENT_TYPE,
            String::from_str(CONTENT_TYPE_HTML),
        )
    }

    /// Whether the response reports `error` as a failure of the server.
    pub open spec fn is_failure(&self, error: InertiaError) -> bool {
        self.is(
            STATUS_INTERNAL_SERVER_ERROR,
            seq![(CONTENT_TYPE@, CONTENT_TYPE_JSON@)],
            error.cause(),
        )
    }

    /// The response that reports a failure: a server error whose body is
    /// the cause.
    pub fn failure(error: &InertiaError) -> (response: Self)
        ensures
            response.is_failure(*error),
    {
        Self::bare(STATUS_INTERNAL_SERVER_ERROR, error.get_cause()).with_header(
            CONTENT_TYPE,
            String::from_str(CONTENT_TYPE_JSON),
        )
    }
}

/// Turns the outcome of a render into what is sent.
pub trait InertiaErrMapper<TResponder, THttpResponse> {
    fn map_inertia_err(self) -> TResponder;
}

impl InertiaErrMapper<InertiaResponse, InertiaResponse> for Result<InertiaResponse, InertiaError> {
    /// The response itself, or the failure response of the error.
    fn map_inertia_err(self) -> (response: InertiaResponse)
        ensures
            match self {
                Ok(sent) => response == sent,
                Err(error) => response.is_failure(error),
            },
    {
        match self {
            Ok(response) => response,
            Err(error) => InertiaResponse::failure(&error),
        }
    }
}

} // verus!
