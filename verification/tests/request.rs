use inertia_rust::error::InertiaError;
use inertia_rust::req_type::{contains_name, Component, InertiaRequestType, PartialComponent};
use inertia_rust::request::{
    extract_partials_headers_content, header_text, parse_names, RequestHeaders, X_INERTIA,
    X_INERTIA_LOCATION, X_INERTIA_PARTIAL_COMPONENT, X_INERTIA_PARTIAL_DATA,
    X_INERTIA_PARTIAL_EXCEPT, X_INERTIA_VERSION,
};

fn bytes(text: &str) -> Option<Vec<u8>> {
    Some(text.as_bytes().to_vec())
}

fn names(list: &[&str]) -> Vec<String> {
    list.iter().map(|s| s.to_string()).collect()
}

fn partials_request() -> RequestHeaders {
    RequestHeaders {
        partial_component: bytes("/Index"),
        // not any props but events and popularUsers
        partial_data: bytes("events,popularUsers"),
        // all props but auth
        partial_except: bytes("auth"),
        ..RequestHeaders::default()
    }
}

#[test]
fn actix_test_get_partials_requirements() {
    let request = partials_request();

    let partials = request.get_request_type().unwrap();

    assert_eq!(
        partials.unwrap_partial(),
        PartialComponent {
            only: vec!["events".to_string(), "popularUsers".to_string()],
            except: vec!["auth".to_string()],
            component: Component("/Index".to_string())
        }
    )
}

#[test]
fn impls_test_get_partials_requirements() {
    let request = partials_request();

    let partials = request.get_request_type().unwrap();

    assert_eq!(
        partials.unwrap_partial(),
        PartialComponent {
            only: vec!["events".to_string(), "popularUsers".to_string()],
            except: vec!["auth".to_string()],
            component: Component("/Index".to_string())
        }
    )
}

#[test]
fn request_without_component_header_is_standard() {
    let request = RequestHeaders {
        partial_data: bytes("events"),
        partial_except: Some(vec![0xff]),
        ..RequestHeaders::default()
    };

    let kind = request.get_request_type().unwrap();

    assert_eq!(kind, InertiaRequestType::Standard);
    assert!(kind.is_standard());
    assert!(!kind.is_partial());
    assert!(kind.partials().is_none());
}

#[test]
fn partial_request_without_lists_has_empty_sets() {
    let request = RequestHeaders {
        partial_component: bytes("Events"),
        ..RequestHeaders::default()
    };

    let kind = request.get_request_type().unwrap();

    assert!(kind.is_partial());
    assert!(!kind.is_standard());
    assert_eq!(
        kind.partials(),
        Some(&PartialComponent {
            component: Component("Events".to_string()),
            only: Vec::new(),
            except: Vec::new(),
        })
    );
}

#[test]
fn list_headers_are_split_trimmed_and_stripped_of_empty_names() {
    let request = RequestHeaders {
        partial_component: bytes("Events"),
        partial_data: bytes(" events ,\tauth,, ,popularUsers,"),
        partial_except: bytes(""),
        ..RequestHeaders::default()
    };

    let partial = request.get_request_type().unwrap().unwrap_partial();

    assert_eq!(partial.only, names(&["events", "auth", "popularUsers"]));
    assert_eq!(partial.except, Vec::<String>::new());
}

#[test]
fn parse_names_keeps_inner_blanks() {
    assert_eq!(parse_names("a b , c"), names(&["a b", "c"]));
    assert_eq!(parse_names(""), Vec::<String>::new());
    assert_eq!(parse_names(" \t "), Vec::<String>::new());
    assert_eq!(parse_names(","), Vec::<String>::new());
    assert_eq!(parse_names("x"), names(&["x"]));
}

fn header_error(result: Result<InertiaRequestType, InertiaError>) -> String {
    match result {
        Err(InertiaError::HeaderError(message)) => message,
        _ => panic!("expected a header error"),
    }
}

#[test]
fn malformed_component_header_is_a_header_error() {
    let request = RequestHeaders {
        partial_component: Some(vec![b'E', 0x07]),
        partial_data: Some(vec![0xff]),
        ..RequestHeaders::default()
    };

    assert_eq!(
        header_error(request.get_request_type()),
        "Header x-inertia-partial-component's value must contain only printable ASCII characters."
    );
}

#[test]
fn malformed_data_header_is_a_header_error() {
    let request = RequestHeaders {
        partial_component: bytes("Events"),
        partial_data: Some(vec![b'a', 0x80]),
        partial_except: Some(vec![0x7f]),
        ..RequestHeaders::default()
    };

    assert_eq!(
        header_error(request.get_request_type()),
        "Header x-inertia-partial-data's value must contain only printable ASCII characters."
    );
}

#[test]
fn malformed_except_header_is_a_header_error() {
    let request = RequestHeaders {
        partial_component: bytes("Events"),
        partial_data: bytes("a"),
        partial_except: Some(vec![0x7f]),
        ..RequestHeaders::default()
    };

    assert_eq!(
        header_error(request.get_request_type()),
        "Header x-inertia-partial-except's value must contain only printable ASCII characters."
    );
}

#[test]
fn header_text_accepts_visible_ascii_and_tab_only() {
    assert_eq!(header_text(&b"a\tb ~".to_vec()), Some("a\tb ~".to_string()));
    assert_eq!(header_text(&Vec::new()), Some(String::new()));
    assert_eq!(header_text(&vec![31]), None);
    assert_eq!(header_text(&vec![127]), None);
    assert_eq!(header_text(&vec![128]), None);
    assert_eq!(header_text(&vec![b'a', b'\n']), None);
}

#[test]
fn extract_partials_headers_content_reads_absent_header_as_empty() {
    assert_eq!(
        extract_partials_headers_content(&None, X_INERTIA_PARTIAL_DATA).unwrap(),
        Vec::<String>::new()
    );
    assert_eq!(
        extract_partials_headers_content(&bytes("a,b"), X_INERTIA_PARTIAL_DATA).unwrap(),
        names(&["a", "b"])
    );
    assert!(matches!(
        extract_partials_headers_content(&Some(vec![0]), X_INERTIA_PARTIAL_EXCEPT),
        Err(InertiaError::HeaderError(message))
            if message == "Header x-inertia-partial-except's value must contain only printable ASCII characters."
    ));
}

#[test]
fn inertia_request_needs_non_empty_marker() {
    let absent = RequestHeaders::default();
    let empty = RequestHeaders { inertia: bytes(""), ..RequestHeaders::default() };
    let marked = RequestHeaders { inertia: bytes("true"), ..RequestHeaders::default() };
    let odd = RequestHeaders { inertia: Some(vec![0xff]), ..RequestHeaders::default() };

    assert!(!absent.is_inertia_request());
    assert!(!empty.is_inertia_request());
    assert!(marked.is_inertia_request());
    assert!(odd.is_inertia_request());
}

#[test]
fn version_check_passes_absent_and_equal_versions() {
    let absent = RequestHeaders::default();
    let equal = RequestHeaders { version: bytes("v1.0.0"), ..RequestHeaders::default() };
    let other = RequestHeaders { version: bytes("v1.0.1"), ..RequestHeaders::default() };
    let prefix = RequestHeaders { version: bytes("v1.0"), ..RequestHeaders::default() };
    let not_text = RequestHeaders { version: Some(vec![b'v', 0xff]), ..RequestHeaders::default() };

    assert!(absent.check_inertia_version("v1.0.0"));
    assert!(equal.check_inertia_version("v1.0.0"));
    assert!(!other.check_inertia_version("v1.0.0"));
    assert!(!prefix.check_inertia_version("v1.0.0"));
    assert!(!not_text.check_inertia_version("v1.0.0"));
}

#[test]
fn contains_name_finds_exact_names() {
    let list = names(&["a", "bc"]);

    assert!(contains_name(&list, &"a".to_string()));
    assert!(contains_name(&list, &"bc".to_string()));
    assert!(!contains_name(&list, &"b".to_string()));
    assert!(!contains_name(&Vec::new(), &"a".to_string()));
}

#[test]
fn header_names_are_lower_case() {
    assert_eq!(X_INERTIA, "x-inertia");
    assert_eq!(X_INERTIA_LOCATION, "x-inertia-location");
    assert_eq!(X_INERTIA_VERSION, "x-inertia-version");
    assert_eq!(X_INERTIA_PARTIAL_COMPONENT, "x-inertia-partial-component");
    assert_eq!(X_INERTIA_PARTIAL_DATA, "x-inertia-partial-data");
    assert_eq!(X_INERTIA_PARTIAL_EXCEPT, "x-inertia-partial-except");
}
