use inertia_rust::props::InertiaProp;
use inertia_rust::props::InertiaProps;
use inertia_rust::req_type::{Component, InertiaRequestType, PartialComponent};
use serde_json::Value;
use std::sync::atomic::{AtomicUsize, Ordering};

fn names(list: &[&str]) -> Vec<String> {
    list.iter().map(|s| s.to_string()).collect()
}

fn partial(only: &[&str], except: &[&str]) -> InertiaRequestType {
    InertiaRequestType::Partial(PartialComponent {
        component: Component("Events".to_string()),
        only: names(only),
        except: names(except),
    })
}

fn keys(props: &serde_json::Map<String, Value>) -> Vec<String> {
    props.keys().cloned().collect()
}

#[test]
fn standard_visit_omits_on_demand_property() {
    let calls = AtomicUsize::new(0);
    let mut props = InertiaProps::new();
    props.insert(
        "radioStatus".to_string(),
        InertiaProp::Demand(|| {
            calls.fetch_add(1, Ordering::SeqCst);
            Value::from("on air")
        }),
    );
    props.insert(
        "categories".to_string(),
        InertiaProp::Data(Value::from(vec!["foo", "bar"])),
    );

    let resolved = InertiaProp::resolve_props(&props, &InertiaRequestType::Standard);

    assert_eq!(keys(&resolved), names(&["categories"]));
    assert_eq!(resolved["categories"], Value::from(vec!["foo", "bar"]));
    assert_eq!(calls.load(Ordering::SeqCst), 0);
}

#[test]
fn standard_visit_runs_lazy_thunk_once() {
    let calls = AtomicUsize::new(0);
    let mut props = InertiaProps::new();
    props.insert(
        "stats".to_string(),
        InertiaProp::Lazy(|| {
            calls.fetch_add(1, Ordering::SeqCst);
            Value::from(42)
        }),
    );
    props.insert("title".to_string(), InertiaProp::Always(Value::from("Home")));

    let resolved = InertiaProp::resolve_props(&props, &InertiaRequestType::Standard);

    assert_eq!(keys(&resolved), names(&["stats", "title"]));
    assert_eq!(resolved["stats"], Value::from(42));
    assert_eq!(resolved["title"], Value::from("Home"));
    assert_eq!(calls.load(Ordering::SeqCst), 1);
}

#[test]
fn always_property_survives_every_filter() {
    let mut props: InertiaProps<fn() -> Value> = InertiaProps::new();
    props.insert("auth".to_string(), InertiaProp::Always(Value::from("X")));
    props.insert("b".to_string(), InertiaProp::Data(Value::from(1)));

    let standard = InertiaProp::resolve_props(&props, &InertiaRequestType::Standard);
    let only_b = InertiaProp::resolve_props(&props, &partial(&["b"], &[]));
    let except_auth = InertiaProp::resolve_props(&props, &partial(&[], &["auth"]));
    let only_other = InertiaProp::resolve_props(&props, &partial(&["zzz"], &["auth"]));

    assert_eq!(standard["auth"], Value::from("X"));
    assert_eq!(only_b["auth"], Value::from("X"));
    assert_eq!(except_auth["auth"], Value::from("X"));
    assert_eq!(keys(&only_other), names(&["auth"]));
}

#[test]
fn only_list_selects_named_properties() {
    let a_calls = AtomicUsize::new(0);
    let b_calls = AtomicUsize::new(0);
    let a = || {
        a_calls.fetch_add(1, Ordering::SeqCst);
        Value::from("a")
    };
    let b = || {
        b_calls.fetch_add(1, Ordering::SeqCst);
        Value::from("b")
    };
    let mut props: InertiaProps<Box<dyn Fn() -> Value + '_>> = InertiaProps::new();
    props.insert("a".to_string(), InertiaProp::Demand(Box::new(a)));
    props.insert("b".to_string(), InertiaProp::Lazy(Box::new(b)));
    props.insert("c".to_string(), InertiaProp::Data(Value::from("c")));

    let resolved = InertiaProp::resolve_props(&props, &partial(&["a"], &[]));

    assert_eq!(keys(&resolved), names(&["a"]));
    assert_eq!(resolved["a"], Value::from("a"));
    assert_eq!(a_calls.load(Ordering::SeqCst), 1);
    assert_eq!(b_calls.load(Ordering::SeqCst), 0);
}

#[test]
fn only_list_takes_precedence_over_except_list() {
    let mut props: InertiaProps<fn() -> Value> = InertiaProps::new();
    props.insert("a".to_string(), InertiaProp::Data(Value::from(1)));
    props.insert("b".to_string(), InertiaProp::Data(Value::from(2)));

    let resolved = InertiaProp::resolve_props(&props, &partial(&["a"], &["a"]));

    assert_eq!(keys(&resolved), names(&["a"]));
}

#[test]
fn except_list_drops_named_properties() {
    let a_calls = AtomicUsize::new(0);
    let b_calls = AtomicUsize::new(0);
    let a = || {
        a_calls.fetch_add(1, Ordering::SeqCst);
        Value::from("a")
    };
    let b = || {
        b_calls.fetch_add(1, Ordering::SeqCst);
        Value::from("b")
    };
    let mut props: InertiaProps<Box<dyn Fn() -> Value + '_>> = InertiaProps::new();
    props.insert("a".to_string(), InertiaProp::Lazy(Box::new(a)));
    props.insert("b".to_string(), InertiaProp::Demand(Box::new(b)));
    props.insert("c".to_string(), InertiaProp::Data(Value::from("c")));

    let resolved = InertiaProp::resolve_props(&props, &partial(&[], &["a"]));

    assert_eq!(keys(&resolved), names(&["b", "c"]));
    assert_eq!(a_calls.load(Ordering::SeqCst), 0);
    assert_eq!(b_calls.load(Ordering::SeqCst), 1);
}

#[test]
fn partial_reload_without_lists_keeps_everything() {
    let mut props = InertiaProps::new();
    props.insert("a".to_string(), InertiaProp::Data(Value::from(1)));
    props.insert("b".to_string(), InertiaProp::Demand(|| Value::from(2)));

    let resolved = InertiaProp::resolve_props(&props, &partial(&[], &[]));

    assert_eq!(keys(&resolved), names(&["a", "b"]));
    assert_eq!(resolved["b"], Value::from(2));
}

#[test]
fn table_insert_replaces_and_returns_previous() {
    let mut props: InertiaProps<fn() -> Value> = InertiaProps::new();
    assert!(props.is_empty());
    assert!(props.insert("a".to_string(), InertiaProp::Data(Value::from(1))).is_none());
    let previous = props.insert("a".to_string(), InertiaProp::Always(Value::from(2)));

    assert!(matches!(previous, Some(InertiaProp::Data(v)) if v == Value::from(1)));
    assert_eq!(props.len(), 1);
    assert!(props.contains_key(&"a".to_string()));
    assert!(!props.contains_key(&"b".to_string()));
    assert!(matches!(props.get(&"a".to_string()), Some(InertiaProp::Always(v)) if *v == Value::from(2)));
    assert!(props.get(&"b".to_string()).is_none());
}

#[test]
fn should_be_pushed_follows_the_filter() {
    let only = PartialComponent {
        component: Component("C".to_string()),
        only: names(&["a"]),
        except: names(&["a", "b"]),
    };
    let except = PartialComponent {
        component: Component("C".to_string()),
        only: Vec::new(),
        except: names(&["a"]),
    };
    type P = InertiaProp<fn() -> Value>;

    assert!(P::should_be_pushed(&"a".to_string(), &only));
    assert!(!P::should_be_pushed(&"b".to_string(), &only));
    assert!(!P::should_be_pushed(&"c".to_string(), &only));
    assert!(!P::should_be_pushed(&"a".to_string(), &except));
    assert!(P::should_be_pushed(&"b".to_string(), &except));
}

fn page_json(page: &inertia_rust::InertiaPage) -> String {
    let mut object = serde_json::Map::new();
    object.insert(
        "component".to_string(),
        Value::from(page.get_component().0.clone()),
    );
    object.insert("props".to_string(), Value::Object(page.get_props().clone()));
    object.insert("url".to_string(), Value::from(page.get_url().clone()));
    object.insert("version".to_string(), Value::from(page.get_version().clone()));
    Value::Object(object).to_string()
}

fn event(id: u16, title: &str) -> Value {
    let mut object = serde_json::Map::new();
    object.insert("id".to_string(), Value::from(id));
    object.insert("title".to_string(), Value::from(title));
    Value::Object(object)
}

fn named(name: &str) -> Value {
    let mut object = serde_json::Map::new();
    object.insert("name".to_string(), Value::from(name));
    Value::Object(object)
}

#[test]
fn test_inertia_partials_visit_page() {
    let mut props: InertiaProps<fn() -> Value> = InertiaProps::new();
    props.insert("auth".into(), InertiaProp::Data(named("John Doe")));
    props.insert(
        "categories".into(),
        InertiaProp::Data(vec!["foo".to_string(), "bar".to_string()].into()),
    );
    props.insert(
        "events".into(),
        InertiaProp::Data(Value::from(vec![event(1, "Baile")])),
    );

    // Request headers
    // X-Inertia: true
    // X-Inertia-Version: generated_version
    // X-Inertia-Partial-Data: events
    // X-Inertia-Partial-Component: Events
    let req_type = InertiaRequestType::Partial(PartialComponent {
        component: Component("Events".to_string()),
        only: Vec::from(["events".to_string()]),
        except: Vec::new(),
    });

    let page = inertia_rust::InertiaPage::new(
        Component("Events".into()),
        "/events/80".to_string(),
        Some("generated_version".into()),
        InertiaProp::resolve_props(&props, &req_type),
    );

    let mut expected_props = serde_json::Map::new();
    expected_props.insert("events".to_string(), Value::from(vec![event(1, "Baile")]));
    let mut json_page_example = serde_json::Map::new();
    json_page_example.insert("component".to_string(), Value::from("Events"));
    json_page_example.insert("props".to_string(), Value::Object(expected_props));
    json_page_example.insert("url".to_string(), Value::from("/events/80"));
    json_page_example.insert("version".to_string(), Value::from("generated_version"));

    assert_eq!(
        page_json(&page),
        serde_json::to_string(&json_page_example).unwrap(),
    );
    assert_eq!(
        page_json(&page),
        "{\"component\":\"Events\",\"props\":{\"events\":[{\"id\":1,\"title\":\"Baile\"}]},\"url\":\"/events/80\",\"version\":\"generated_version\"}"
    );
}

#[test]
fn partial_visit_keeps_always_property_beside_selection() {
    let mut user = serde_json::Map::new();
    user.insert("user".to_string(), Value::from("X"));
    let mut props: InertiaProps<fn() -> Value> = InertiaProps::new();
    props.insert("auth".into(), InertiaProp::Always(Value::Object(user.clone())));
    props.insert(
        "categories".into(),
        InertiaProp::Data(vec!["foo".to_string(), "bar".to_string()].into()),
    );
    props.insert(
        "events".into(),
        InertiaProp::Data(Value::from(vec![event(1, "Baile")])),
    );

    let resolved = InertiaProp::resolve_props(&props, &partial(&["events"], &[]));

    assert_eq!(keys(&resolved), names(&["auth", "events"]));
    assert_eq!(resolved["auth"], Value::Object(user));
    assert_eq!(resolved["events"], Value::from(vec![event(1, "Baile")]));
}

#[test]
fn test_inertia_standard_visit_page() {
    let calls = AtomicUsize::new(0);
    let mut props = InertiaProps::new();
    props.insert(
        "radioStatus".into(),
        InertiaProp::Demand(|| {
            calls.fetch_add(1, Ordering::SeqCst);
            let mut object = serde_json::Map::new();
            object.insert("announcer".to_string(), Value::from("John Doe"));
            Value::Object(object)
        }),
    );
    props.insert(
        "categories".into(),
        InertiaProp::Data(vec!["foo".to_string(), "bar".to_string()].into()),
    );

    // Request headers
    // X-Inertia: true
    // X-Inertia-Version: generated_version
    let req_type = InertiaRequestType::Standard;

    let page = inertia_rust::InertiaPage::new(
        Component("Categories".into()),
        "/categories".to_string(),
        Some("generated_version".into()),
        InertiaProp::resolve_props(&props, &req_type),
    );

    let mut expected_props = serde_json::Map::new();
    expected_props.insert("categories".to_string(), Value::from(vec!["foo", "bar"]));
    let mut json_page_example = serde_json::Map::new();
    json_page_example.insert("component".to_string(), Value::from("Categories"));
    json_page_example.insert("props".to_string(), Value::Object(expected_props));
    json_page_example.insert("url".to_string(), Value::from("/categories"));
    json_page_example.insert("version".to_string(), Value::from("generated_version"));

    assert_eq!(
        page_json(&page),
        serde_json::to_string(&json_page_example).unwrap(),
    );
    assert_eq!(calls.load(Ordering::SeqCst), 0);
}
