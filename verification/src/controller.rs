//! The course of one request, as a state machine.
//!
//! `render_with_props` takes a request as far as the library can take it
//! alone: it classifies the request, checks the version of the client's
//! assets, resolves the properties and assembles the page. Where the page
//! needs work that only the caller can do, the state says so: the caller
//! asks the renderer or renders the root template, and hands the outcome
//! to `step`.
use crate::error::InertiaError;
use crate::inertia::{Inertia, ViewData};
use crate::json::json_entries;
use crate::page::{InertiaPage, InertiaSSRPage};
use crate::props::{all_callable, evaluated_keys, resolves_to, InertiaProp, InertiaProps};
use crate::req_type::{Component, InertiaRequestType};
use crate::request::{
    is_header_text, malformed_header_message, RequestHeaders, X_INERTIA_LOCATION,
};
use crate::response::{InertiaResponse, LOCATION, STATUS_CONFLICT, STATUS_FOUND, STATUS_OK};
use crate::text::text_of_bytes;
use crate::utils::inertia_err_msg;
use serde_json::Value;
use vstd::prelude::*;

verus! {

/// The path of the renderer's endpoint that renders a page.
pub const RENDER_PATH: &'static str = "render";

/// Where the handling of a request stands.
#[derive(Debug)]
pub enum RenderState {
    /// The client's assets are stale: it is sent to the url of the request
    /// again. While `persist_session` holds, the temporary session of the
    /// request is still to be persisted, so that it survives the reload;
    /// after that the state is final. `warning` reports a session that
    /// could not be persisted.
    ForcedRefresh { response: InertiaResponse, persist_session: bool, warning: Option<String> },
    /// Final. The client is hydrated: the page goes out as data.
    JsonResponse { page: InertiaPage },
    /// The page is to be rendered by the renderer, at `endpoint`.
    AwaitingSsr { page: InertiaPage, endpoint: String },
    /// The root template is to be rendered from `view_data`. `warning`
    /// reports a renderer that failed.
    AwaitingTemplate { view_data: ViewData, warning: Option<String> },
    /// Final. The full document goes out.
    FullRender { response: InertiaResponse },
    /// Final. The request fails.
    Failed { error: InertiaError },
}

/// What the caller does next.
#[derive(Debug, Clone, Copy, PartialEq, Eq)]
pub enum RenderAction {
    /// Persist the temporary session of the request, if it has one, and
    /// hand the outcome to `step`.
    PersistSession,
    /// Log the warning of the state, if there is one, and send the
    /// response of the state.
    Respond,
    /// Send the page of the state as data.
    RespondWithPage,
    /// Ask the renderer to render the page of the state, and hand the
    /// outcome to `step`.
    RequestSsr,
    /// Log the warning of the state, if there is one, render the root
    /// template from the view data of the state, and hand the outcome to
    /// `step`.
    ResolveTemplate,
    /// Fail the request with the error of the state.
    Fail,
}

/// What the caller hands back.
#[derive(Debug)]
pub enum RenderEvent {
    /// The temporary session has been persisted, or could not be.
    SessionPersisted(Result<(), InertiaError>),
    /// The renderer has answered, or could not be made to.
    SsrFinished(Result<InertiaSSRPage, InertiaError>),
    /// The root template has been rendered, or could not be.
    TemplateFinished(Result<String, InertiaError>),
}

impl RenderState {
    /// What the caller does in this state.
    pub open spec fn action(&self) -> RenderAction {
        match self {
            RenderState::ForcedRefresh { persist_session, .. } => if *persist_session {
                RenderAction::PersistSession
            } else {
                RenderAction::Respond
            },
            RenderState::JsonResponse { .. } => RenderAction::RespondWithPage,
            RenderState::AwaitingSsr { .. } => RenderAction::RequestSsr,
            RenderState::AwaitingTemplate { .. } => RenderAction::ResolveTemplate,
            RenderState::FullRender { .. } => RenderAction::Respond,
            RenderState::Failed { .. } => RenderAction::Fail,
        }
    }

    /// Whether the handling of the request ends in this state.
    pub open spec fn is_final(&self) -> bool {
        self.action() is Respond || self.action() is RespondWithPage || self.action() is Fail
    }

    /// What the caller does in this state.
    pub fn next_action(&self) -> (action: RenderAction)
        ensures
            action == self.action(),
    {
        match self {
            RenderState::ForcedRefresh { persist_session, .. } => if *persist_session {
                RenderAction::PersistSession
            } else {
                RenderAction::Respond
            },
            RenderState::JsonResponse { .. } => RenderAction::RespondWithPage,
            RenderState::AwaitingSsr { .. } => RenderAction::RequestSsr,
            RenderState::AwaitingTemplate { .. } => RenderAction::ResolveTemplate,
            RenderState::FullRender { .. } => RenderAction::Respond,
            RenderState::Failed { .. } => RenderAction::Fail,
        }
    }
}

/// Whether `page` is a page for the request: it names the component, the
/// url and the version, and its properties are a resolution of the route's
/// properties together with a resolution of the shared ones, both for the
/// kind of the request. Where both tables hold a name, the shared
/// property stays.
pub open spec fn is_page_of<F: Fn() -> Value>(
    page: InertiaPage,
    headers: RequestHeaders,
    component: Seq<char>,
    url: Seq<char>,
    version: Seq<char>,
    props: Map<Seq<char>, InertiaProp<F>>,
    shared_props: Map<Seq<char>, InertiaProp<F>>,
) -> bool {
    &&& page.component() == component
    &&& page.url() == url
    &&& page.version() == Some(version)
    &&& exists|req_type: InertiaRequestType, own: Map<Seq<char>, Value>, shared: Map<Seq<char>, Value>|
        {
            &&& headers.classified_as(req_type)
            &&& #[trigger] resolves_to(props, req_type, own)
            &&& #[trigger] resolves_to(shared_props, req_type, shared)
            &&& page.props() == own.union_prefer_right(shared)
        }
}

/// The warning that reports a renderer that failed for a page.
pub open spec fn ssr_warning(component: Seq<char>, cause: Seq<char>) -> Seq<char> {
    "[Inertia] "@ + ("Error on server-side rendering page "@ + component + ". "@
        + "Inertia Error: "@ + cause)
}

/// The warning that reports a temporary session that could not be
/// persisted.
pub open spec fn reflash_warning(cause: Seq<char>) -> Seq<char> {
    "[Inertia] "@ + ("Failed to reflesh Inertia Temporary Session. "@ + cause)
}

/// The cause that is given where server-side rendering is on and the
/// endpoint of the renderer cannot be addressed.
pub const NO_RENDER_ENDPOINT: &'static str =
    "The render endpoint of the SSR Server has no address.";

/// The warning that reports a renderer that failed for a page.
fn warn_ssr_failure(page: &InertiaPage, error: &InertiaError) -> (warning: String)
    ensures
        warning@ == ssr_warning(page.component(), error.cause()),
{
    let mut message = String::from_str("Error on server-side rendering page ");
    message.append(page.get_component().0.as_str());
    message.append(". ");
    message.append(error.to_string().as_str());
    assert(message@ == "Error on server-side rendering page "@ + page.component() + ". "@
        + "Inertia Error: "@ + error.cause());
    inertia_err_msg(message)
}

impl<R, T: 'static> Inertia<R, T> {
    /// The endpoint of the renderer that renders a page, where
    /// server-side rendering is on and the endpoint can be addressed.
    pub open spec fn render_endpoint(&self) -> Option<Seq<char>> {
        match self.ssr_url {
            Some(url) => url.path_replaced(RENDER_PATH),
            None => None,
        }
    }

    /// Whether `checked` is the outcome of the version check for a request
    /// to `url`: nothing to do where the client's assets are the server's
    /// or the client reports none, else the response that sends the client
    /// to `url` again.
    pub open spec fn negotiates(
        &self,
        headers: RequestHeaders,
        url: Seq<char>,
        checked: Result<(), InertiaResponse>,
    ) -> bool {
        match checked {
            Ok(_) => headers.version_is(self.version@),
            Err(refresh) => !headers.version_is(self.version@) && refresh.is_location(
                headers.hydrated(),
                url,
            ),
        }
    }

    /// Checks the version of the client's assets. Where it is the
    /// server's, or the client reports none, handling goes on. Where it
    /// differs, the result is the response that sends the client to `url`
    /// again: a conflict for a hydrated client, a redirect for a browser.
    pub fn check_and_handle_version_mismatch(&self, headers: &RequestHeaders, url: &str) -> (checked:
        Result<(), InertiaResponse>)
        ensures
            self.negotiates(*headers, url@, checked),
    {
        if !headers.check_inertia_version(self.version) {
            return Err(InertiaResponse::location(headers.is_inertia_request(), url));
        }
        Ok(())
    }

    /// Renders the page of `component` without properties of its own.
    pub fn render<F: Fn() -> Value>(
        &self,
        headers: &RequestHeaders,
        url: String,
        component: Component,
        shared_props: &InertiaProps<F>,
    ) -> (state: RenderState)
        requires
            all_callable(shared_props@),
        ensures
            self.renders(*headers, url@, component.0@, Map::empty(), shared_props@, state),
    {
        let props: InertiaProps<F> = InertiaProps::new();
        self.render_with_props(headers, url, component, &props, shared_props)
    }

    /// Whether `state` is where `render_with_props` takes the request.
    pub open spec fn renders<F: Fn() -> Value>(
        &self,
        headers: RequestHeaders,
        url: Seq<char>,
        component: Seq<char>,
        props: Map<Seq<char>, InertiaProp<F>>,
        shared_props: Map<Seq<char>, InertiaProp<F>>,
        state: RenderState,
    ) -> bool {
        let page_fits = |page: InertiaPage|
            is_page_of(page, headers, component, url, self.version@, props, shared_props);
        match state {
            RenderState::Failed { error } => {
                &&& headers.malformed_header() matches Some(name)
                &&& error matches InertiaError::HeaderError(message)
                &&& message@ == malformed_header_message(name)
            },
            RenderState::ForcedRefresh { response, persist_session, warning } => {
                &&& headers.malformed_header() is None
                &&& !headers.version_is(self.version@)
                &&& response.is_location(headers.hydrated(), url)
                &&& persist_session == headers.hydrated()
                &&& warning is None
            },
            RenderState::JsonResponse { page } => {
                &&& headers.malformed_header() is None
                &&& headers.version_is(self.version@)
                &&& headers.hydrated()
                &&& page_fits(page)
            },
            RenderState::AwaitingSsr { page, endpoint } => {
                &&& headers.malformed_header() is None
                &&& headers.version_is(self.version@)
                &&& !headers.hydrated()
                &&& self.render_endpoint() == Some(endpoint@)
                &&& page_fits(page)
            },
            RenderState::AwaitingTemplate { view_data, warning } => {
                &&& headers.malformed_header() is None
                &&& headers.version_is(self.version@)
                &&& !headers.hydrated()
                &&& self.render_endpoint() is None
                &&& page_fits(view_data.page)
                &&& view_data.ssr_page is None
                &&& json_entries(view_data.custom_props) == json_entries(self.custom_view_data)
                &&& match warning {
                    Some(text) => self.ssr_url is Some && text@ == ssr_warning(
                        component,
                        NO_RENDER_ENDPOINT@,
                    ),
                    None => self.ssr_url is None,
                }
            },
            RenderState::FullRender { .. } => false,
        }
    }

    /// Takes a request as far as the library can take it alone.
    ///
    /// * `headers`      - the Inertia headers of the request
    /// * `url`          - the url of the request
    /// * `component`    - the component of the page
    /// * `props`        - the properties of the route
    /// * `shared_props` - the properties shared by every page
    ///
    /// In order: a request with a malformed header fails. A client with
    /// stale assets is sent to the url again, before any property is
    /// resolved; the temporary session of a hydrated client is to be
    /// persisted first. Else the properties are resolved and the page is
    /// assembled; a hydrated client gets it as data, and for a browser it
    /// goes to the renderer, where there is one, or to the root template.
    pub fn render_with_props<F: Fn() -> Value>(
        &self,
        headers: &RequestHeaders,
        url: String,
        component: Component,
        props: &InertiaProps<F>,
        shared_props: &InertiaProps<F>,
    ) -> (state: RenderState)
        requires
            all_callable(props@),
            all_callable(shared_props@),
        ensures
            self.renders(*headers, url@, component.0@, props@, shared_props@, state),
    {
        let (state, _) = self.render_with_props_traced(
            headers,
            url,
            component,
            props,
            shared_props,
        );
        state
    }

    /// Renders as `render_with_props` does and also tells, as ghost data,
    /// the names of the properties whose thunk was called: those of the
    /// route first, then the shared ones, one item per call.
    ///
    /// A request that fails, and a request of a client with stale assets,
    /// calls no thunk at all. Any other request calls the thunk of each
    /// thunk-valued property that its page carries once, and no other.
    pub fn render_with_props_traced<F: Fn() -> Value>(
        &self,
        headers: &RequestHeaders,
        url: String,
        component: Component,
        props: &InertiaProps<F>,
        shared_props: &InertiaProps<F>,
    ) -> (res: (RenderState, Ghost<(Seq<Seq<char>>, Seq<Seq<char>>)>))
        requires
            all_callable(props@),
            all_callable(shared_props@),
        ensures
            self.renders(*headers, url@, component.0@, props@, shared_props@, res.0),
            if res.0 is Failed || res.0 is ForcedRefresh {
                res.1@.0.len() == 0 && res.1@.1.len() == 0
            } else {
                exists|req_type: InertiaRequestType|
                    {
                        &&& #[trigger] headers.classified_as(req_type)
                        &&& res.1@.0.no_duplicates()
                        &&& res.1@.0.to_set() =~= evaluated_keys(props@, req_type)
                        &&& res.1@.1.no_duplicates()
                        &&& res.1@.1.to_set() =~= evaluated_keys(shared_props@, req_type)
                    }
            },
    {
        let ghost nothing: (Seq<Seq<char>>, Seq<Seq<char>>) = (Seq::empty(), Seq::empty());
        let req_type = match headers.get_request_type() {
            Ok(req_type) => req_type,
            Err(error) => {
                return (RenderState::Failed { error }, Ghost(nothing));
            },
        };
        if let Err(response) = self.check_and_handle_version_mismatch(headers, url.as_str()) {
            return (
                RenderState::ForcedRefresh {
                    response,
                    persist_session: headers.is_inertia_request(),
                    warning: None,
                },
                Ghost(nothing),
            );
        }
        let (mut resolved, Ghost(own_calls)) = InertiaProp::resolve_props_traced(props, &req_type);
        let (mut shared, Ghost(shared_calls)) = InertiaProp::resolve_props_traced(
            shared_props,
            &req_type,
        );
        let ghost calls = (own_calls, shared_calls);
        let ghost own = json_entries(resolved);
        let ghost extra = json_entries(shared);
        resolved.append(&mut shared);
        let ghost url_text = url@;
        let ghost component_text = component.0@;
        let page = InertiaPage::new(
            component,
            url,
            Some(String::from_str(self.version)),
            resolved,
        );
        proof {
            assert(resolves_to(props@, req_type, own));
            assert(resolves_to(shared_props@, req_type, extra));
            assert(page.props() == own.union_prefer_right(extra));
            assert(is_page_of(
                page,
                *headers,
                component_text,
                url_text,
                self.version@,
                props@,
                shared_props@,
            ));
        }
        if headers.is_inertia_request() {
            return (RenderState::JsonResponse { page }, Ghost(calls));
        }
        let endpoint = match &self.ssr_url {
            None => None,
            Some(ssr_url) => Some(ssr_url.with_path(RENDER_PATH)),
        };
        (self.full_render(page, endpoint), Ghost(calls))
    }

    /// Whether `state` is where a full render of `page` begins, given the
    /// endpoint of the renderer: nothing where server-side rendering is
    /// off, else the address of the endpoint or nothing where it has
    /// none.
    pub open spec fn begins_full_render(
        &self,
        page: InertiaPage,
        endpoint: Option<Option<String>>,
        state: RenderState,
    ) -> bool {
        match endpoint {
            Some(Some(address)) => state == (RenderState::AwaitingSsr { page, endpoint: address }),
            Some(None) => {
                &&& state matches RenderState::AwaitingTemplate { view_data, warning }
                &&& view_data.page == page
                &&& view_data.ssr_page is None
                &&& json_entries(view_data.custom_props) == json_entries(self.custom_view_data)
                &&& warning matches Some(text)
                &&& text@ == ssr_warning(page.component(), NO_RENDER_ENDPOINT@)
            },
            None => {
                &&& state matches RenderState::AwaitingTemplate { view_data, warning }
                &&& view_data.page == page
                &&& view_data.ssr_page is None
                &&& json_entries(view_data.custom_props) == json_entries(self.custom_view_data)
                &&& warning is None
            },
        }
    }

    /// Begins the full render of a page for a browser. With an endpoint
    /// of the renderer the page awaits the renderer; without server-side
    /// rendering it awaits the root template; and where server-side
    /// rendering is on but the endpoint has no address, it awaits the root
    /// template under a warning.
    pub fn full_render(&self, page: InertiaPage, endpoint: Option<Option<String>>) -> (state:
        RenderState)
        ensures
            self.begins_full_render(page, endpoint, state),
    {
        match endpoint {
            Some(Some(endpoint)) => RenderState::AwaitingSsr { page, endpoint },
            Some(None) => {
                let error = InertiaError::SsrError(String::from_str(NO_RENDER_ENDPOINT));
                let warning = warn_ssr_failure(&page, &error);
                RenderState::AwaitingTemplate {
                    view_data: ViewData {
                        ssr_page: None,
                        page,
                        custom_props: self.custom_view_data.clone(),
                    },
                    warning: Some(warning),
                }
            },
            None => RenderState::AwaitingTemplate {
                view_data: ViewData {
                    ssr_page: None,
                    page,
                    custom_props: self.custom_view_data.clone(),
                },
                warning: None,
            },
        }
    }

    /// Whether `next` is where `event` takes a request from `state`.
    pub open spec fn steps(&self, state: RenderState, event: RenderEvent, next: RenderState) -> bool {
        match (state, event) {
            (
                RenderState::ForcedRefresh { response, persist_session, .. },
                RenderEvent::SessionPersisted(outcome),
            ) => if persist_session {
                &&& next matches RenderState::ForcedRefresh {
                    response: sent,
                    persist_session: pending,
                    warning,
                }
                &&& sent == response
                &&& !pending
                &&& match outcome {
                    Ok(_) => warning is None,
                    Err(error) => warning matches Some(text) && text@ == reflash_warning(
                        error.cause(),
                    ),
                }
            } else {
                next == state
            },
            (RenderState::AwaitingSsr { page, .. }, RenderEvent::SsrFinished(outcome)) => {
                &&& next matches RenderState::AwaitingTemplate { view_data, warning }
                &&& view_data.page == page
                &&& json_entries(view_data.custom_props) == json_entries(self.custom_view_data)
                &&& match outcome {
                    Ok(ssr_page) => view_data.ssr_page == Some(ssr_page) && warning is None,
                    Err(error) => {
                        &&& view_data.ssr_page is None
                        &&& warning matches Some(text)
                        &&& text@ == ssr_warning(page.component(), error.cause())
                    },
                }
            },
            (RenderState::AwaitingTemplate { .. }, RenderEvent::TemplateFinished(outcome)) => {
                match outcome {
                    Ok(html) => next matches RenderState::FullRender { response }
                        && response.is_html(html@),
                    Err(error) => next == (RenderState::Failed { error }),
                }
            },
            _ => next == state,
        }
    }

    /// Takes a request on from `state` with what the caller hands back,
    /// and tells what the caller does next.
    ///
    /// A session that could not be persisted never fails the request: the
    /// client is sent on, under a warning. A renderer that failed never
    /// fails the request either: the page goes to the root template
    /// without pre-rendered fragments, under a warning. A root template
    /// that cannot be rendered fails the request. An event that the state
    /// does not await changes nothing.
    pub fn step(&self, state: RenderState, event: RenderEvent) -> (next: (RenderState, RenderAction))
        ensures
            self.steps(state, event, next.0),
            next.1 == next.0.action(),
    {
        let next = match (state, event) {
            (
                RenderState::ForcedRefresh { response, persist_session: true, warning },
                RenderEvent::SessionPersisted(outcome),
            ) => {
                let warning = match outcome {
                    Ok(_) => None,
                    Err(error) => {
                        let mut message = String::from_str(
                            "Failed to reflesh Inertia Temporary Session. ",
                        );
                        message.append(error.get_cause().as_str());
                        Some(inertia_err_msg(message))
                    },
                };
                RenderState::ForcedRefresh { response, persist_session: false, warning }
            },
            (RenderState::AwaitingSsr { page, endpoint }, RenderEvent::SsrFinished(outcome)) => {
                match outcome {
                    Ok(ssr_page) => RenderState::AwaitingTemplate {
                        view_data: ViewData {
                            ssr_page: Some(ssr_page),
                            page,
                            custom_props: self.custom_view_data.clone(),
                        },
                        warning: None,
                    },
                    Err(error) => {
                        let warning = warn_ssr_failure(&page, &error);
                        RenderState::AwaitingTemplate {
                            view_data: ViewData {
                                ssr_page: None,
                                page,
                                custom_props: self.custom_view_data.clone(),
                            },
                            warning: Some(warning),
                        }
                    },
                }
            },
            (RenderState::AwaitingTemplate { view_data, warning }, RenderEvent::TemplateFinished(outcome)) => {
                match outcome {
                    Ok(html) => RenderState::FullRender { response: InertiaResponse::html(html) },
                    Err(error) => RenderState::Failed { error },
                }
            },
            (state, _) => state,
        };
        let action = next.next_action();
        (next, action)
    }
}

/// Version negotiation. A client that reports no version, or the
/// server's version, goes on. A client that reports another version is
/// sent to the url of its request: a hydrated client with a conflict whose
/// location header is the url, a browser with a redirect, which is no
/// conflict.
pub proof fn lemma_version_negotiation<R, T>(
    inertia: Inertia<R, T>,
    headers: RequestHeaders,
    url: Seq<char>,
    checked: Result<(), InertiaResponse>,
)
    requires
        inertia.negotiates(headers, url, checked),
    ensures
        headers.version is None ==> checked is Ok,
        headers.version matches Some(claimed) && is_header_text(claimed@) && text_of_bytes(
            claimed@,
        ) == inertia.version@ ==> checked is Ok,
        headers.version matches Some(claimed) && !(is_header_text(claimed@) && text_of_bytes(
            claimed@,
        ) == inertia.version@) ==> {
            &&& checked matches Err(refresh)
            &&& refresh.body@ == Seq::<char>::empty()
            &&& if headers.hydrated() {
                refresh.status == STATUS_CONFLICT && refresh.header_list() == seq![
                    (X_INERTIA_LOCATION@, url),
                ]
            } else {
                refresh.status == STATUS_FOUND && refresh.status != STATUS_CONFLICT
                    && refresh.header_list() == seq![(LOCATION@, url)]
            }
        },
{
}

/// A renderer that fails never fails the request: whatever the failure,
/// the page goes on to the root template without pre-rendered fragments,
/// and a root template that renders then ends the request in a full
/// document with the status of success.
pub proof fn lemma_renderer_failure_is_not_fatal<R, T>(
    inertia: Inertia<R, T>,
    state: RenderState,
    error: InertiaError,
    fallback: RenderState,
    html: String,
    end: RenderState,
)
    requires
        state is AwaitingSsr,
        inertia.steps(state, RenderEvent::SsrFinished(Err(error)), fallback),
        inertia.steps(fallback, RenderEvent::TemplateFinished(Ok(html)), end),
    ensures
        fallback matches RenderState::AwaitingTemplate { view_data, .. } && view_data.ssr_page is None
            && view_data.page == state->AwaitingSsr_page,
        end matches RenderState::FullRender { response } && response.status == STATUS_OK
            && response.body@ == html@,
{
}

/// A temporary session that cannot be persisted never fails the request:
/// whatever the outcome, the client is sent to the same place, and the
/// state is final.
pub proof fn lemma_reflash_failure_is_not_fatal<R, T>(
    inertia: Inertia<R, T>,
    state: RenderState,
    outcome: Result<(), InertiaError>,
    next: RenderState,
)
    requires
        state matches RenderState::ForcedRefresh { persist_session, .. } && persist_session,
        inertia.steps(state, RenderEvent::SessionPersisted(outcome), next),
    ensures
        next matches RenderState::ForcedRefresh { response, .. } && response
            == state->ForcedRefresh_response,
        next.action() is Respond,
        next.is_final(),
{
}

/// A final state stays: no event leads out of it.
pub proof fn lemma_final_state_stays<R, T>(
    inertia: Inertia<R, T>,
    state: RenderState,
    event: RenderEvent,
    next: RenderState,
)
    requires
        state.is_final(),
        inertia.steps(state, event, next),
    ensures
        next == state,
{
}

} // verus!
