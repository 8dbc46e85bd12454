use http_frontend::discovery::DiscoveryClient;
use http_frontend::docs::HttpMethod;
use http_frontend::routes::{RouteEntry, RouteGroup, RouteTable};
use http_frontend::service::HttpService;

fn all_groups() -> Vec<RouteGroup> {
    vec![
        RouteGroup::Metrics,
        RouteGroup::ModelList,
        RouteGroup::Health,
        RouteGroup::ClearKvBlocks,
        RouteGroup::WorkerList,
        RouteGroup::ChatCompletions,
        RouteGroup::Completions,
        RouteGroup::Embeddings,
    ]
}

#[test]
fn exactly_enabled_toggle_groups_are_reachable() {
    for chat in [false, true] {
        for cmpl in [false, true] {
            for embed in [false, true] {
                let service = HttpService::builder()
                    .enable_chat_endpoints(chat)
                    .enable_cmpl_endpoints(cmpl)
                    .enable_embeddings_endpoints(embed)
                    .build(None)
                    .unwrap();
                for g in all_groups() {
                    let expected = match g {
                        RouteGroup::Metrics
                        | RouteGroup::ModelList
                        | RouteGroup::Health
                        | RouteGroup::ClearKvBlocks => Some(g),
                        RouteGroup::WorkerList => None,
                        RouteGroup::ChatCompletions => {
                            if chat {
                                Some(g)
                            } else {
                                None
                            }
                        }
                        RouteGroup::Completions => {
                            if cmpl {
                                Some(g)
                            } else {
                                None
                            }
                        }
                        RouteGroup::Embeddings => {
                            if embed {
                                Some(g)
                            } else {
                                None
                            }
                        }
                    };
                    assert_eq!(service.dispatch(g.method(), &g.path()), expected);
                }
            }
        }
    }
}

#[test]
fn unknown_path_gets_no_route() {
    let service = HttpService::builder().build(None).unwrap();
    assert_eq!(
        service.dispatch(HttpMethod::Get, &String::from("/nowhere")),
        None
    );
    // A known path under the wrong method is no route either.
    assert_eq!(
        service.dispatch(HttpMethod::Post, &String::from("/metrics")),
        None
    );
}

#[test]
fn discovery_client_gates_worker_listing() {
    let with_client = HttpService::builder()
        .build(Some(DiscoveryClient::new()))
        .unwrap();
    assert_eq!(
        with_client.dispatch(HttpMethod::Get, &String::from("/workers")),
        Some(RouteGroup::WorkerList)
    );
    assert!(with_client
        .route_docs()
        .iter()
        .any(|d| d.path == "/workers"));

    let without_client = HttpService::builder().build(None).unwrap();
    assert_eq!(
        without_client.dispatch(HttpMethod::Get, &String::from("/workers")),
        None
    );
    assert!(!without_client
        .route_docs()
        .iter()
        .any(|d| d.path == "/workers"));

    // Only the worker-listing group differs between the two tables.
    assert_eq!(
        with_client.route_docs().len(),
        without_client.route_docs().len() + 1
    );
}

#[test]
fn documentation_order_is_deterministic() {
    let build = || {
        HttpService::builder()
            .build(Some(DiscoveryClient::new()))
            .unwrap()
    };
    let first = build();
    let second = build();
    assert_eq!(first.route_docs(), second.route_docs());
    let paths: Vec<&str> = first.route_docs().iter().map(|d| d.path.as_str()).collect();
    assert_eq!(
        paths,
        vec![
            "/metrics",
            "/v1/models",
            "/health",
            "/clear_kv_blocks",
            "/workers",
            "/v1/chat/completions",
            "/v1/completions",
            "/v1/embeddings",
        ]
    );
}

#[test]
fn documentation_order_ignores_disabled_groups() {
    let service = HttpService::builder()
        .enable_chat_endpoints(false)
        .build(None)
        .unwrap();
    let paths: Vec<&str> = service
        .route_docs()
        .iter()
        .map(|d| d.path.as_str())
        .collect();
    assert_eq!(
        paths,
        vec![
            "/metrics",
            "/v1/models",
            "/health",
            "/clear_kv_blocks",
            "/v1/completions",
            "/v1/embeddings",
        ]
    );
}

#[test]
fn last_registered_entry_wins_ties() {
    let mut table = RouteTable::new();
    table.register(RouteEntry {
        method: HttpMethod::Get,
        path: String::from("/health"),
        group: RouteGroup::Health,
    });
    table.register(RouteEntry {
        method: HttpMethod::Get,
        path: String::from("/health"),
        group: RouteGroup::Metrics,
    });
    assert_eq!(
        table.dispatch(HttpMethod::Get, &String::from("/health")),
        Some(RouteGroup::Metrics)
    );
    assert_eq!(table.len(), 2);
}

#[test]
fn cloned_service_shares_the_same_table() {
    let service = HttpService::builder()
        .enable_embeddings_endpoints(false)
        .build(None)
        .unwrap();
    let duplicate = service.clone();
    assert_eq!(service.route_docs(), duplicate.route_docs());
    assert_eq!(service.port(), duplicate.port());
    assert_eq!(service.host(), duplicate.host());
    assert_eq!(
        duplicate.dispatch(HttpMethod::Post, &String::from("/v1/embeddings")),
        None
    );
}
