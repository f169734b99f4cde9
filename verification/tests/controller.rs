use inertia_rust::controller::{RenderAction, RenderEvent, RenderState};
use inertia_rust::middleware::{
    check_passage, redirect_status, share_always, share_errors, HttpMethod, Passage,
};
use inertia_rust::request::RequestHeaders;
use inertia_rust::ssr::{request_page_render, SsrOutcome};
use inertia_rust::template::template_resolver;
use inertia_rust::{
    Component, Inertia, InertiaConfig, InertiaError, InertiaHeader, InertiaPage, InertiaProp,
    InertiaProps, InertiaResponse, InertiaSSRPage, InertiaTemporarySession, InertiaVersion,
    SsrClient, ViewData,
};
use serde_json::Value;

const TEST_INERTIA_VERSION: &str = "v1.0.0";

const ROOT_LAYOUT: &str = "
<!doctype html>
<html lang=\"en\">
<head>
    <meta charset=\"UTF-8\">
    <meta name=\"viewport\" content=\"width=device-width, user-scalable=no, initial-scale=1.0, maximum-scale=1.0, minimum-scale=1.0\">
    <meta http-equiv=\"X-UA-Compatible\" content=\"ie=edge\">
    %-inertia_head-%
</head>
<body>
    %-inertia_body-%
</body>
</html>";

type Thunk = Box<dyn Fn() -> Value>;
type Version = InertiaVersion<&'static str, fn() -> &'static str>;
type Engine = Inertia<(), ()>;

fn super_trim(text: String) -> String {
    text.trim()
        .replace("\r\n", "")
        .replace("\n", "")
        .replace("\t", "")
}

fn get_dynamic_csr_expect(url: &str, props: &str, component: &str, version: &str) -> String {
    super_trim(ROOT_LAYOUT.replace("%-inertia_head-%", "").replace(
        "%-inertia_body-%",
        &format!(
            "<div id=\"app\" data-page={{\"component\":\"{component}\",\"props\":{props},\"url\":\"{url}\",\"version\":\"{version}\"}}></div>"
        ),
    ))
}

fn page_json(page: &InertiaPage) -> String {
    let mut object = serde_json::Map::new();
    object.insert(
        "component".to_string(),
        Value::from(page.get_component().0.clone()),
    );
    object.insert("props".to_string(), Value::Object(page.get_props().clone()));
    object.insert("url".to_string(), Value::from(page.get_url().clone()));
    object.insert("version".to_string(), Value::from(page.get_version().clone()));
    Value::Object(object).to_string()
}

fn mocked_resolver(view_data: &ViewData) -> Result<String, InertiaError> {
    let mut html = ROOT_LAYOUT.to_string();
    match &view_data.ssr_page {
        Some(ssr) => {
            html = html.replace("%-inertia_body-%", ssr.get_body());
            html = html.replace("%-inertia_head-%", &ssr.get_head());
        }
        None => {
            let stringified_page = page_json(&view_data.page);
            let container = format!("<div id=\"app\" data-page={stringified_page}></div>",);
            html = html.replace("%-inertia_body-%", &container);
            html = html.replace("%-inertia_head-%", "");
        }
    }
    Ok(html)
}

fn engine(version: Version, ssr: bool) -> Engine {
    let mut builder = InertiaConfig::builder()
        .set_url("https://inertiajs.com")
        .set_version(version)
        .set_template_path("tests/common/root_layout.html")
        .set_template_resolver(())
        .set_template_resolver_data(&());
    if ssr {
        builder = builder.enable_ssr();
    }
    Inertia::new(builder.build()).unwrap()
}

fn generate_inertia() -> Engine {
    engine(InertiaVersion::Literal(TEST_INERTIA_VERSION), false)
}

fn header(header: InertiaHeader) -> Option<Vec<u8>> {
    Some(header.convert().1.into_bytes())
}

fn no_props() -> InertiaProps<Thunk> {
    InertiaProps::new()
}

fn with_props() -> InertiaProps<Thunk> {
    let mut props: InertiaProps<Thunk> = InertiaProps::new();
    props.insert("user".to_string(), InertiaProp::Always("John Doe".into()));
    props
}

fn home(inertia: &Engine, headers: &RequestHeaders, shared: &InertiaProps<Thunk>) -> RenderState {
    inertia.render(headers, "/".to_string(), Component("Index".into()), shared)
}

fn full_render(inertia: &Engine, state: RenderState) -> InertiaResponse {
    let state = match state {
        RenderState::AwaitingSsr { .. } => {
            let outcome = SsrOutcome::Unreachable("operation timed out".to_string());
            inertia.step(state, RenderEvent::SsrFinished(request_page_render(outcome))).0
        }
        state => state,
    };
    let html = match &state {
        RenderState::AwaitingTemplate { view_data, .. } => mocked_resolver(view_data),
        _ => panic!("the request does not await the root template"),
    };
    match inertia.step(state, RenderEvent::TemplateFinished(html)) {
        (RenderState::FullRender { response }, RenderAction::Respond) => response,
        _ => panic!("the request did not end in a full render"),
    }
}

fn header_value<'a>(response: &'a InertiaResponse, name: &str) -> Option<&'a str> {
    response
        .headers
        .iter()
        .find(|(header, _)| header == name)
        .map(|(_, value)| value.as_str())
}

#[test]
fn test_assets_version_redirect() {
    let inertia = generate_inertia();

    let first_access_request = RequestHeaders {
        inertia: header(InertiaHeader::Inertia),
        ..RequestHeaders::default()
    };
    let n_access_request = RequestHeaders {
        inertia: header(InertiaHeader::Inertia),
        version: header(InertiaHeader::Version("any_other_version")),
        ..RequestHeaders::default()
    };

    assert!(matches!(
        check_passage(Some(&inertia), &first_access_request, "/"),
        Passage::Forward
    ));
    let first_access_response = match home(&inertia, &first_access_request, &no_props()) {
        RenderState::JsonResponse { page } => InertiaResponse::page(page_json(&page)),
        _ => panic!("expected the page as data"),
    };
    let n_access_response = match check_passage(Some(&inertia), &n_access_request, "/") {
        Passage::Refresh { response } => response,
        Passage::Forward => panic!("expected a forced refresh"),
    };

    assert_eq!(200u16, first_access_response.status);
    assert!(header_value(&first_access_response, "x-inertia-location").is_none());

    assert_eq!(409u16, n_access_response.status);
    assert_eq!(
        "/",
        header_value(&n_access_response, "x-inertia-location").unwrap()
    );
}

#[test]
fn test_render() {
    let inertia = generate_inertia();

    let req = RequestHeaders {
        version: header(InertiaHeader::Version("v1.0.0")),
        ..RequestHeaders::default()
    };
    let resp = full_render(&inertia, home(&inertia, &req, &no_props()));

    assert_eq!(200u16, resp.status);

    assert_eq!(
        get_dynamic_csr_expect("/", "{}", "Index", TEST_INERTIA_VERSION),
        super_trim(resp.body)
    );
}

#[test]
fn test_render_with_props() {
    let inertia = generate_inertia();

    let req = RequestHeaders {
        version: header(InertiaHeader::Version("v1.0.0")),
        ..RequestHeaders::default()
    };
    let state = inertia.render_with_props(
        &req,
        "/withprops".to_string(),
        Component("Index".into()),
        &with_props(),
        &no_props(),
    );
    let resp = full_render(&inertia, state);

    assert_eq!(200u16, resp.status);

    let mut user = serde_json::Map::new();
    user.insert("user".to_string(), Value::from("John Doe"));
    assert_eq!(
        get_dynamic_csr_expect(
            "/withprops",
            &Value::Object(user).to_string(),
            "Index",
            TEST_INERTIA_VERSION
        ),
        super_trim(resp.body)
    );
}

#[test]
fn test_shared_props() {
    let test_shared_property_key = "sharedProperty";
    let test_shared_property_value = "Some amazing value!";

    let inertia = generate_inertia();
    let mut shared_props: InertiaProps<Thunk> = InertiaProps::new();
    shared_props.insert(
        test_shared_property_key.to_string(),
        InertiaProp::Always(test_shared_property_value.into()),
    );

    let req = RequestHeaders {
        version: header(InertiaHeader::Version(TEST_INERTIA_VERSION)),
        inertia: header(InertiaHeader::Inertia),
        ..RequestHeaders::default()
    };

    let json_body = match home(&inertia, &req, &shared_props) {
        RenderState::JsonResponse { page } => page,
        _ => panic!("expected the page as data"),
    };

    assert_eq!(
        test_shared_property_value,
        json_body.get_props().get(test_shared_property_key).unwrap()
    );
}

#[test]
fn shared_property_overrides_route_property_of_the_same_name() {
    let inertia = generate_inertia();
    let mut props: InertiaProps<Thunk> = InertiaProps::new();
    props.insert("title".to_string(), InertiaProp::Data("route".into()));
    props.insert("own".to_string(), InertiaProp::Data(1.into()));
    let mut shared_props: InertiaProps<Thunk> = InertiaProps::new();
    shared_props.insert("title".to_string(), InertiaProp::Data("shared".into()));
    shared_props.insert("common".to_string(), InertiaProp::Lazy(Box::new(|| 2.into())));

    let req = RequestHeaders { inertia: header(InertiaHeader::Inertia), ..RequestHeaders::default() };
    let state = inertia.render_with_props(
        &req,
        "/".to_string(),
        Component("Index".into()),
        &props,
        &shared_props,
    );

    match state {
        RenderState::JsonResponse { page } => assert_eq!(
            page_json(&page),
            "{\"component\":\"Index\",\"props\":{\"common\":2,\"own\":1,\"title\":\"shared\"},\"url\":\"/\",\"version\":\"v1.0.0\"}"
        ),
        _ => panic!("expected the page as data"),
    }
}

#[test]
fn test_inertia_route_service() {
    let inertia = generate_inertia();

    let req = RequestHeaders::default();
    let state = inertia.render(
        &req,
        "/withservice".to_string(),
        Component("Index".into()),
        &no_props(),
    );
    let resp = full_render(&inertia, state);

    assert_eq!(200u16, resp.status);

    assert_eq!(
        get_dynamic_csr_expect("/withservice", "{}", "Index", TEST_INERTIA_VERSION),
        super_trim(resp.body)
    );
}

#[test]
fn test_inertia_middleware() {
    let resp_put = redirect_status(HttpMethod::Put, 301);
    let resp_post = redirect_status(HttpMethod::Post, 303);
    let resp_delete = redirect_status(HttpMethod::Delete, 302);

    assert_eq!(303u16, resp_put);
    assert_eq!(303u16, resp_post);
    assert_eq!(303u16, resp_delete);
}

#[test]
fn redirect_status_rewrites_only_moved_and_found_of_put_patch_delete() {
    assert_eq!(redirect_status(HttpMethod::Patch, 301), 303);
    assert_eq!(redirect_status(HttpMethod::Patch, 302), 303);
    assert_eq!(redirect_status(HttpMethod::Put, 302), 303);
    assert_eq!(redirect_status(HttpMethod::Delete, 301), 303);
    assert_eq!(redirect_status(HttpMethod::Get, 301), 301);
    assert_eq!(redirect_status(HttpMethod::Get, 302), 302);
    assert_eq!(redirect_status(HttpMethod::Post, 301), 301);
    assert_eq!(redirect_status(HttpMethod::Post, 302), 302);
    assert_eq!(redirect_status(HttpMethod::Put, 307), 307);
    assert_eq!(redirect_status(HttpMethod::Delete, 200), 200);
    assert_eq!(redirect_status(HttpMethod::Patch, 409), 409);
}

#[test]
fn test_inertia_temporary_sessions() {
    let inertia = generate_inertia();

    let request = RequestHeaders {
        version: header(InertiaHeader::Version("wrong_version")),
        inertia: header(InertiaHeader::Inertia),
        ..RequestHeaders::default()
    };

    let mut errors = serde_json::Map::new();
    errors.insert("foo".into(), "We are enemies, we are fooes...".into());

    let session = Some(InertiaTemporarySession {
        errors: Some(errors.clone()),
        prev_req_url: "/".into(),
    });
    let mut storage: Vec<InertiaTemporarySession> = Vec::new();

    // as wrong version has been set, it will force a refresh.
    // the session is to be persisted again, which puts it inside the list
    let state = inertia.render_with_props(
        &request,
        "/withprops".to_string(),
        Component("Index".into()),
        &with_props(),
        &no_props(),
    );
    assert_eq!(state.next_action(), RenderAction::PersistSession);
    if let Some(session) = session {
        storage.push(session);
    }
    let (state, action) = inertia.step(state, RenderEvent::SessionPersisted(Ok(())));
    let response = match state {
        RenderState::ForcedRefresh { response, persist_session, warning } => {
            assert!(!persist_session);
            assert_eq!(warning, None);
            response
        }
        _ => panic!("expected a forced refresh"),
    };
    assert_eq!(action, RenderAction::Respond);
    assert_eq!(409u16, response.status);
    assert_eq!(header_value(&response, "x-inertia-location"), Some("/withprops"));

    assert!(!storage.is_empty());
    assert_eq!(&errors, storage[0].errors.as_ref().unwrap());
}

fn inertia_page_test() {
    let inertia = engine(InertiaVersion::Resolver(|| "gen_the_version"), false);

    let mut props: InertiaProps<Thunk> = InertiaProps::new();
    props.insert(
        "title".into(),
        InertiaProp::Data("My website's cool title!".into()),
    );
    props.insert(
        "content".into(),
        InertiaProp::Data("Such a nice content, isn't it?".into()),
    );

    let fake_req = RequestHeaders {
        inertia: header(InertiaHeader::Inertia),
        version: header(InertiaHeader::Version("gen_the_version")),
        ..RequestHeaders::default()
    };

    let page = InertiaPage::new(
        Component("/Users/Index".into()),
        "/users".to_string(),
        Some("gen_the_version".to_string()),
        InertiaProp::resolve_props(&props, &fake_req.get_request_type().unwrap()),
    );

    let state = inertia.render_with_props(
        &fake_req,
        "/users".to_string(),
        Component("/Users/Index".into()),
        &props,
        &no_props(),
    );
    assert_eq!(state.next_action(), RenderAction::RespondWithPage);
    let response = match state {
        RenderState::JsonResponse { page } => InertiaResponse::page(page_json(&page)),
        _ => panic!("expected the page as data"),
    };

    assert_eq!(response.status, 200);
    assert_eq!(header_value(&response, "x-inertia"), Some("true"));
    assert_eq!(response.body, page_json(&page));
    assert_eq!(
        response.body,
        "{\"component\":\"/Users/Index\",\"props\":{\"content\":\"Such a nice content, isn't it?\",\"title\":\"My website's cool title!\"},\"url\":\"/users\",\"version\":\"gen_the_version\"}"
    );
}

#[test]
fn actix_test_inertia_page() {
    inertia_page_test();
}

#[test]
fn impls_test_inertia_page() {
    inertia_page_test();
}

#[test]
fn malformed_header_fails_the_request_before_anything_else() {
    let inertia = generate_inertia();
    let req = RequestHeaders {
        inertia: header(InertiaHeader::Inertia),
        version: header(InertiaHeader::Version("stale")),
        partial_component: Some(vec![0x00]),
        ..RequestHeaders::default()
    };

    let state = home(&inertia, &req, &no_props());

    assert_eq!(state.next_action(), RenderAction::Fail);
    assert!(matches!(
        state,
        RenderState::Failed { error: InertiaError::HeaderError(message) }
            if message == "Header x-inertia-partial-component's value must contain only printable ASCII characters."
    ));
}

#[test]
fn stale_browser_is_redirected_without_conflict() {
    let inertia = generate_inertia();
    let req = RequestHeaders {
        version: header(InertiaHeader::Version("stale")),
        ..RequestHeaders::default()
    };

    let state = inertia.render_with_props(
        &req,
        "/here?x=1".to_string(),
        Component("Index".into()),
        &with_props(),
        &no_props(),
    );

    assert_eq!(state.next_action(), RenderAction::Respond);
    match state {
        RenderState::ForcedRefresh { response, persist_session, warning } => {
            assert!(!persist_session);
            assert_eq!(warning, None);
            assert_eq!(response.status, 302);
            assert_eq!(
                response.headers,
                vec![("location".to_string(), "/here?x=1".to_string())]
            );
            assert_eq!(response.body, "");
        }
        _ => panic!("expected a redirect"),
    }
}

#[test]
fn stale_client_does_not_resolve_any_property() {
    let inertia = generate_inertia();
    let calls = std::cell::Cell::new(0);
    let mut props = InertiaProps::new();
    props.insert(
        "lazy".to_string(),
        InertiaProp::Lazy(|| {
            calls.set(calls.get() + 1);
            Value::Null
        }),
    );
    let shared = InertiaProps::new();
    let req = RequestHeaders {
        inertia: header(InertiaHeader::Inertia),
        version: header(InertiaHeader::Version("stale")),
        ..RequestHeaders::default()
    };

    let state =
        inertia.render_with_props(&req, "/".to_string(), Component("Index".into()), &props, &shared);

    assert!(matches!(state, RenderState::ForcedRefresh { .. }));
    assert_eq!(calls.get(), 0);
}

#[test]
fn check_and_handle_version_mismatch_tells_fresh_from_stale() {
    let inertia = generate_inertia();
    let absent = RequestHeaders::default();
    let equal = RequestHeaders {
        version: header(InertiaHeader::Version(TEST_INERTIA_VERSION)),
        ..RequestHeaders::default()
    };
    let stale_client = RequestHeaders {
        inertia: header(InertiaHeader::Inertia),
        version: header(InertiaHeader::Version("v0")),
        ..RequestHeaders::default()
    };
    let stale_browser = RequestHeaders {
        version: header(InertiaHeader::Version("v0")),
        ..RequestHeaders::default()
    };

    assert_eq!(inertia.check_and_handle_version_mismatch(&absent, "/a"), Ok(()));
    assert_eq!(inertia.check_and_handle_version_mismatch(&equal, "/a"), Ok(()));
    assert_eq!(
        inertia.check_and_handle_version_mismatch(&stale_client, "/a"),
        Err(InertiaResponse {
            status: 409,
            headers: vec![("x-inertia-location".to_string(), "/a".to_string())],
            body: String::new(),
        })
    );
    assert_eq!(
        inertia.check_and_handle_version_mismatch(&stale_browser, "/a"),
        Err(InertiaResponse {
            status: 302,
            headers: vec![("location".to_string(), "/a".to_string())],
            body: String::new(),
        })
    );
}

#[test]
fn middleware_refreshes_every_request_while_engine_is_missing() {
    let req = RequestHeaders::default();

    match check_passage::<(), ()>(None, &req, "/x") {
        Passage::Refresh { response } => {
            assert_eq!(response.status, 302);
            assert_eq!(header_value(&response, "location"), Some("/x"));
        }
        Passage::Forward => panic!("expected a redirect"),
    }
}

#[test]
fn share_errors_adds_errors_of_the_session() {
    let mut errors = serde_json::Map::new();
    errors.insert("name".into(), "is required".into());
    let with_errors = Some(InertiaTemporarySession {
        errors: Some(errors.clone()),
        prev_req_url: "/form".into(),
    });
    let without_errors = Some(InertiaTemporarySession::default());

    let mut shared: InertiaProps<Thunk> = InertiaProps::new();
    shared.insert("errors".to_string(), InertiaProp::Data("stale".into()));
    shared.insert("flash".to_string(), InertiaProp::Data("hello".into()));
    share_errors(&mut shared, &with_errors);
    let mut blank: InertiaProps<Thunk> = InertiaProps::new();
    share_errors(&mut blank, &without_errors);
    let mut untouched: InertiaProps<Thunk> = InertiaProps::new();
    share_errors(&mut untouched, &None);

    assert_eq!(shared.len(), 2);
    assert!(matches!(
        shared.get(&"errors".to_string()),
        Some(InertiaProp::Always(value)) if *value == Value::Object(errors)
    ));
    assert!(matches!(
        blank.get(&"errors".to_string()),
        Some(InertiaProp::Always(Value::Null))
    ));
    assert!(untouched.is_empty());
}

#[test]
fn ssr_timeout_falls_back_to_client_side_hydration() {
    let inertia = engine(InertiaVersion::Literal(TEST_INERTIA_VERSION), true);
    let req = RequestHeaders::default();

    let state = inertia.render_with_props(
        &req,
        "/withprops".to_string(),
        Component("Index".into()),
        &with_props(),
        &no_props(),
    );
    assert_eq!(state.next_action(), RenderAction::RequestSsr);
    match &state {
        RenderState::AwaitingSsr { endpoint, .. } => {
            assert_eq!(endpoint, "http://127.0.0.1:13714/render")
        }
        _ => panic!("expected a call of the renderer"),
    }

    let outcome = request_page_render(SsrOutcome::Unreachable("operation timed out".into()));
    let (state, action) = inertia.step(state, RenderEvent::SsrFinished(outcome));
    assert_eq!(action, RenderAction::ResolveTemplate);
    let html = match &state {
        RenderState::AwaitingTemplate { view_data, warning } => {
            assert!(view_data.ssr_page.is_none());
            assert_eq!(
                warning.as_deref(),
                Some("[Inertia] Error on server-side rendering page Index. Inertia Error: Failed to render the page at the SSR Server: operation timed out")
            );
            template_resolver(
                "<head>@inertia::head</head><body>@inertia::body</body>",
                view_data,
                &Ok(page_json(&view_data.page)),
            )
        }
        _ => panic!("expected the root template"),
    };
    let (state, action) = inertia.step(state, RenderEvent::TemplateFinished(html));

    assert_eq!(action, RenderAction::Respond);
    match state {
        RenderState::FullRender { response } => {
            assert_eq!(response.status, 200);
            assert_eq!(
                response.headers,
                vec![
                    ("x-inertia".to_string(), "true".to_string()),
                    ("content-type".to_string(), "text/html; charset=utf-8".to_string()),
                ]
            );
            assert_eq!(
                response.body,
                "<head></head><body><div id='app' data-page='{\"component\":\"Index\",\"props\":{\"user\":\"John Doe\"},\"url\":\"/withprops\",\"version\":\"v1.0.0\"}'></div>\n</body>"
            );
        }
        _ => panic!("expected a full render"),
    }
}

#[test]
fn ssr_result_is_spliced_into_the_template() {
    let inertia = Inertia::new(
        InertiaConfig::<(), (), &'static str, fn() -> &'static str>::builder()
            .set_url("https://inertiajs.com")
            .set_version(InertiaVersion::Literal(TEST_INERTIA_VERSION))
            .set_template_path("root.html")
            .set_template_resolver(())
            .set_template_resolver_data(&())
            .set_ssr_client(SsrClient::new("https://renderer.test", 8080))
            .enable_ssr()
            .build(),
    )
    .unwrap();
    let state = home(&inertia, &RequestHeaders::default(), &no_props());
    match &state {
        RenderState::AwaitingSsr { endpoint, page } => {
            assert_eq!(endpoint, "https://renderer.test:8080/render");
            assert_eq!(page.get_url(), "/");
        }
        _ => panic!("expected a call of the renderer"),
    }

    let outcome = request_page_render(SsrOutcome::Rendered {
        head: vec!["<title>Home</title>".to_string(), "<meta name=\"a\">".to_string()],
        body: "<div id=\"app\">hello</div>".to_string(),
    });
    let (state, _) = inertia.step(state, RenderEvent::SsrFinished(outcome));
    let html = match &state {
        RenderState::AwaitingTemplate { view_data, warning } => {
            assert!(warning.is_none());
            assert_eq!(
                view_data.ssr_page,
                Some(InertiaSSRPage::new(
                    vec!["<title>Home</title>".to_string(), "<meta name=\"a\">".to_string()],
                    "<div id=\"app\">hello</div>".to_string()
                ))
            );
            template_resolver(
                "<head>@inertia::head</head><body>@inertia::body</body>",
                view_data,
                &Err("unused".to_string()),
            )
        }
        _ => panic!("expected the root template"),
    };

    assert_eq!(
        html.unwrap(),
        "<head><title>Home</title>\n<meta name=\"a\"></head><body><div id=\"app\">hello</div></body>"
    );
}

#[test]
fn view_data_carries_the_custom_data_of_the_engine() {
    let mut custom = serde_json::Map::new();
    custom.insert("lang".to_string(), Value::from("en"));
    let inertia: Engine = Inertia::new(
        InertiaConfig::builder()
            .set_url("https://inertiajs.com")
            .set_version(InertiaVersion::Literal(TEST_INERTIA_VERSION) as Version)
            .set_template_path("root.html")
            .set_template_resolver(())
            .set_template_resolver_data(&())
            .set_view_data(custom.clone())
            .build(),
    )
    .unwrap();

    match home(&inertia, &RequestHeaders::default(), &no_props()) {
        RenderState::AwaitingTemplate { view_data, warning } => {
            assert_eq!(view_data.custom_props, custom);
            assert_eq!(view_data.ssr_page, None);
            assert_eq!(warning, None);
        }
        _ => panic!("expected the root template"),
    }
}

#[test]
fn template_failure_fails_the_request() {
    let inertia = generate_inertia();
    let state = home(&inertia, &RequestHeaders::default(), &no_props());
    assert_eq!(state.next_action(), RenderAction::ResolveTemplate);

    let failure = Err(InertiaError::RenderError("no such layout".to_string()));
    let (state, action) = inertia.step(state, RenderEvent::TemplateFinished(failure));

    assert_eq!(action, RenderAction::Fail);
    assert!(matches!(
        state,
        RenderState::Failed { error: InertiaError::RenderError(cause) } if cause == "no such layout"
    ));
}

#[test]
fn event_that_is_not_awaited_changes_nothing() {
    let inertia = engine(InertiaVersion::Literal(TEST_INERTIA_VERSION), true);
    let state = home(&inertia, &RequestHeaders::default(), &no_props());

    let (state, action) = inertia.step(state, RenderEvent::TemplateFinished(Ok("<p>".into())));
    assert_eq!(action, RenderAction::RequestSsr);
    assert!(matches!(state, RenderState::AwaitingSsr { .. }));

    let done = RenderState::FullRender { response: InertiaResponse::html("<p>".to_string()) };
    let outcome = request_page_render(SsrOutcome::Malformed("eof".into()));
    let (state, action) = inertia.step(done, RenderEvent::SsrFinished(outcome));
    assert_eq!(action, RenderAction::Respond);
    assert!(matches!(state, RenderState::FullRender { response } if response.body == "<p>"));
}

#[test]
fn session_that_cannot_be_persisted_is_logged_and_not_fatal() {
    let inertia = generate_inertia();
    let req = RequestHeaders {
        inertia: header(InertiaHeader::Inertia),
        version: header(InertiaHeader::Version("stale")),
        ..RequestHeaders::default()
    };
    let state = home(&inertia, &req, &no_props());
    assert_eq!(state.next_action(), RenderAction::PersistSession);

    let failure = Err(InertiaError::SerializationError("session store is down".into()));
    let (state, action) = inertia.step(state, RenderEvent::SessionPersisted(failure));

    assert_eq!(action, RenderAction::Respond);
    match state {
        RenderState::ForcedRefresh { response, persist_session, warning } => {
            assert!(!persist_session);
            assert_eq!(response, InertiaResponse::location(true, "/"));
            assert_eq!(
                warning.as_deref(),
                Some("[Inertia] Failed to reflesh Inertia Temporary Session. session store is down")
            );
        }
        _ => panic!("expected a forced refresh"),
    }

    let (state, action) = inertia.step(state_of_browser(&inertia), RenderEvent::SessionPersisted(Ok(())));
    assert_eq!(action, RenderAction::Respond);
    assert!(matches!(
        state,
        RenderState::ForcedRefresh { persist_session: false, warning: None, .. }
    ));
}

fn state_of_browser(inertia: &Engine) -> RenderState {
    let req = RequestHeaders {
        version: header(InertiaHeader::Version("stale")),
        ..RequestHeaders::default()
    };
    home(inertia, &req, &no_props())
}

fn index_page() -> InertiaPage {
    InertiaPage::new(
        Component("Index".to_string()),
        "/".to_string(),
        Some(TEST_INERTIA_VERSION.to_string()),
        serde_json::Map::new(),
    )
}

#[test]
fn full_render_begins_with_renderer_or_template() {
    let inertia = generate_inertia();

    match inertia.full_render(index_page(), Some(Some("http://ssr/render".to_string()))) {
        RenderState::AwaitingSsr { page, endpoint } => {
            assert_eq!(page, index_page());
            assert_eq!(endpoint, "http://ssr/render");
        }
        _ => panic!("expected a call of the renderer"),
    }
    match inertia.full_render(index_page(), None) {
        RenderState::AwaitingTemplate { view_data, warning } => {
            assert_eq!(view_data.page, index_page());
            assert_eq!(view_data.ssr_page, None);
            assert_eq!(warning, None);
        }
        _ => panic!("expected the root template"),
    }
    match inertia.full_render(index_page(), Some(None)) {
        RenderState::AwaitingTemplate { view_data, warning } => {
            assert_eq!(view_data.page, index_page());
            assert_eq!(view_data.ssr_page, None);
            assert_eq!(
                warning.as_deref(),
                Some("[Inertia] Error on server-side rendering page Index. Inertia Error: The render endpoint of the SSR Server has no address.")
            );
        }
        _ => panic!("expected the root template"),
    }
}

#[test]
fn share_always_replaces_what_was_shared_under_the_name() {
    let mut shared: InertiaProps<Thunk> = InertiaProps::new();
    shared.insert("flash".to_string(), InertiaProp::Lazy(Box::new(|| Value::Null)));

    share_always(&mut shared, "flash", Value::from("saved"));
    share_always(&mut shared, "locale", Value::from("en"));

    assert_eq!(shared.len(), 2);
    assert!(matches!(
        shared.get(&"flash".to_string()),
        Some(InertiaProp::Always(value)) if *value == Value::from("saved")
    ));
    assert!(matches!(
        shared.get(&"locale".to_string()),
        Some(InertiaProp::Always(value)) if *value == Value::from("en")
    ));
}
