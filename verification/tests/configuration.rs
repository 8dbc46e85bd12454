use std::sync::Arc;

use http_frontend::docs::HttpMethod;
use http_frontend::metrics::Registry;
use http_frontend::request_template::RequestTemplate;
use http_frontend::routes::RouteGroup;
use http_frontend::runtime::DistributedRuntime;
use http_frontend::service::{HttpService, DEFAULT_PORT};
use http_frontend::state::State;

#[test]
fn default_configuration_binds_default_address_and_enables_all_toggles() {
    let service = HttpService::builder().build(None).unwrap();
    assert_eq!(service.port(), 8787);
    assert_eq!(service.port(), DEFAULT_PORT);
    assert_eq!(service.host(), "0.0.0.0");
    for g in [
        RouteGroup::Metrics,
        RouteGroup::ModelList,
        RouteGroup::Health,
        RouteGroup::ClearKvBlocks,
        RouteGroup::ChatCompletions,
        RouteGroup::Completions,
        RouteGroup::Embeddings,
    ] {
        assert_eq!(service.dispatch(g.method(), &g.path()), Some(g));
    }
}

#[test]
fn overrides_replace_only_their_field() {
    let service = HttpService::builder()
        .port(9000)
        .host(String::from("127.0.0.1"))
        .build(None)
        .unwrap();
    assert_eq!(service.port(), 9000);
    assert_eq!(service.host(), "127.0.0.1");
    // The toggles keep their defaults.
    assert_eq!(
        service.dispatch(HttpMethod::Post, &String::from("/v1/chat/completions")),
        Some(RouteGroup::ChatCompletions)
    );
}

#[test]
fn request_template_is_carried_through() {
    let service = HttpService::builder()
        .with_request_template(Some(RequestTemplate::new()))
        .build(None)
        .unwrap();
    assert_eq!(service.request_template(), &Some(RequestTemplate::new()));

    let none = HttpService::builder()
        .with_request_template(None)
        .build(None)
        .unwrap();
    assert_eq!(none.request_template(), &None);
}

#[test]
fn runtime_handle_reaches_the_state() {
    let rt = Arc::new(DistributedRuntime::new());
    let attached = HttpService::builder()
        .runtime(Some(rt))
        .build(None)
        .unwrap();
    assert!(attached.state().runtime().is_some());

    let standalone = HttpService::builder().build(None).unwrap();
    assert!(standalone.state().runtime().is_none());
}

#[test]
fn state_construction_forms() {
    let manager = Arc::new(http_frontend::discovery::ModelManager::new());
    let standalone = State::new(manager.clone());
    assert!(standalone.runtime().is_none());
    assert!(standalone.sse_keep_alive().is_none());

    let rt = Arc::new(DistributedRuntime::new());
    let attached = State::with_runtime(manager, rt);
    assert!(attached.runtime().is_some());
}

#[test]
fn metrics_handle_registers_exactly_once() {
    let service = HttpService::builder().build(None).unwrap();
    let metrics = service.state().metrics_clone();

    let mut registry = Registry::new();
    assert!(!registry.is_registered());
    assert!(metrics.register(&mut registry).is_ok());
    assert!(registry.is_registered());
    // A second registration into the same registry fails and the registry
    // still holds the first.
    assert!(metrics.register(&mut registry).is_err());
    assert!(registry.is_registered());
}
