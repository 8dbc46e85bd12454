//! Service configuration, its builder, and the built service instance.
//!
//! Configuration is declarative with enumerated defaults; finalization is
//! two-phase: `build` additionally accepts an optional discovery-service
//! client — an environment-provided collaborator, deliberately not part of
//! the declarative configuration — and produces the immutable service
//! instance: shared state, merged dispatch table, bound address and the
//! ordered route documentation.

use std::sync::Arc;

use vstd::prelude::*;

use crate::BuildError;
use crate::discovery::{DiscoveryClient, ModelManager};
use crate::docs::{clone_docs, DocEntry, HttpMethod, RouteDoc};
use crate::metrics::Registry;
use crate::request_template::RequestTemplate;
use crate::routes::{
    compose_routes, docs_plan, group_present, spec_dispatch, table_plan, RouteGroup, RouteTable,
    SpecRouteEntry,
};
use crate::runtime::DistributedRuntime;
use crate::state::State;

verus! {

/// Default port a service binds when none is configured.
pub const DEFAULT_PORT: u16 = 8787;

/// Declarative service configuration. A pure value: no identity beyond its
/// fields.
#[derive(Clone)]
pub struct HttpServiceConfig {
    pub port: u16,
    pub host: String,
    pub enable_chat_endpoints: bool,
    pub enable_cmpl_endpoints: bool,
    pub enable_embeddings_endpoints: bool,
    pub request_template: Option<RequestTemplate>,
    pub runtime: Option<Arc<DistributedRuntime>>,
}

/// Builder over [`HttpServiceConfig`]: chainable setters for any subset of
/// fields; every unset field takes its enumerated default at finalization.
pub struct HttpServiceConfigBuilder {
    port: Option<u16>,
    host: Option<String>,
    enable_chat_endpoints: Option<bool>,
    enable_cmpl_endpoints: Option<bool>,
    enable_embeddings_endpoints: Option<bool>,
    request_template: Option<Option<RequestTemplate>>,
    runtime: Option<Option<Arc<DistributedRuntime>>>,
}

impl HttpServiceConfigBuilder {
    /// The configured port override, if any.
    pub closed spec fn spec_port(&self) -> Option<u16> {
        self.port
    }

    /// The configured host override, if any, as a character sequence.
    pub closed spec fn spec_host(&self) -> Option<Seq<char>> {
        match self.host {
            Some(h) => Some(h@),
            None => None,
        }
    }

    /// The configured chat-endpoints override, if any.
    pub closed spec fn spec_chat(&self) -> Option<bool> {
        self.enable_chat_endpoints
    }

    /// The configured completions-endpoints override, if any.
    pub closed spec fn spec_cmpl(&self) -> Option<bool> {
        self.enable_cmpl_endpoints
    }

    /// The configured embeddings-endpoints override, if any.
    pub closed spec fn spec_embeddings(&self) -> Option<bool> {
        self.enable_embeddings_endpoints
    }

    /// The configured request-template override, if any.
    pub closed spec fn spec_template(&self) -> Option<Option<RequestTemplate>> {
        self.request_template
    }

    /// The configured distributed-runtime override, if any.
    pub closed spec fn spec_runtime(&self) -> Option<Option<DistributedRuntime>> {
        match self.runtime {
            Some(Some(rt)) => Some(Some(*rt)),
            Some(None) => Some(None),
            None => None,
        }
    }

    /// The port the built service binds: the override or 8787.
    pub open spec fn effective_port(&self) -> u16 {
        match self.spec_port() {
            Some(p) => p,
            None => DEFAULT_PORT,
        }
    }

    /// The host the built service binds: the override or "0.0.0.0".
    pub open spec fn effective_host(&self) -> Seq<char> {
        match self.spec_host() {
            Some(h) => h,
            None => "0.0.0.0"@,
        }
    }

    /// Whether the chat-completions group is enabled: the override or true.
    pub open spec fn effective_chat(&self) -> bool {
        match self.spec_chat() {
            Some(b) => b,
            None => true,
        }
    }

    /// Whether the completions group is enabled: the override or true.
    pub open spec fn effective_cmpl(&self) -> bool {
        match self.spec_cmpl() {
            Some(b) => b,
            None => true,
        }
    }

    /// Whether the embeddings group is enabled: the override or true.
    pub open spec fn effective_embeddings(&self) -> bool {
        match self.spec_embeddings() {
            Some(b) => b,
            None => true,
        }
    }

    /// The request template of the built service: the override or none.
    pub open spec fn effective_template(&self) -> Option<RequestTemplate> {
        match self.spec_template() {
            Some(t) => t,
            None => None,
        }
    }

    /// The distributed-runtime handle of the built service: the override or
    /// none.
    pub open spec fn effective_runtime(&self) -> Option<DistributedRuntime> {
        match self.spec_runtime() {
            Some(rt) => rt,
            None => None,
        }
    }

    /// Overrides the port.
    pub fn port(self, port: u16) -> (r: Self)
        ensures
            r.spec_port() == Some(port),
            r.spec_host() == self.spec_host(),
            r.spec_chat() == self.spec_chat(),
            r.spec_cmpl() == self.spec_cmpl(),
            r.spec_embeddings() == self.spec_embeddings(),
            r.spec_template() == self.spec_template(),
            r.spec_runtime() == self.spec_runtime(),
    {
        HttpServiceConfigBuilder { port: Some(port), ..self }
    }

    /// Overrides the host.
    pub fn host(self, host: String) -> (r: Self)
        ensures
            r.spec_host() == Some(host@),
            r.spec_port() == self.spec_port(),
            r.spec_chat() == self.spec_chat(),
            r.spec_cmpl() == self.spec_cmpl(),
            r.spec_embeddings() == self.spec_embeddings(),
            r.spec_template() == self.spec_template(),
            r.spec_runtime() == self.spec_runtime(),
    {
        HttpServiceConfigBuilder { host: Some(host), ..self }
    }

    /// Overrides the chat-completions toggle.
    pub fn enable_chat_endpoints(self, enable: bool) -> (r: Self)
        ensures
            r.spec_chat() == Some(enable),
            r.spec_port() == self.spec_port(),
            r.spec_host() == self.spec_host(),
            r.spec_cmpl() == self.spec_cmpl(),
            r.spec_embeddings() == self.spec_embeddings(),
            r.spec_template() == self.spec_template(),
            r.spec_runtime() == self.spec_runtime(),
    {
        HttpServiceConfigBuilder { enable_chat_endpoints: Some(enable), ..self }
    }

    /// Overrides the completions toggle.
    pub fn enable_cmpl_endpoints(self, enable: bool) -> (r: Self)
        ensures
            r.spec_cmpl() == Some(enable),
            r.spec_port() == self.spec_port(),
            r.spec_host() == self.spec_host(),
            r.spec_chat() == self.spec_chat(),
            r.spec_embeddings() == self.spec_embeddings(),
            r.spec_template() == self.spec_template(),
            r.spec_runtime() == self.spec_runtime(),
    {
        HttpServiceConfigBuilder { enable_cmpl_endpoints: Some(enable), ..self }
    }

    /// Overrides the embeddings toggle.
    pub fn enable_embeddings_endpoints(self, enable: bool) -> (r: Self)
        ensures
            r.spec_embeddings() == Some(enable),
            r.spec_port() == self.spec_port(),
            r.spec_host() == self.spec_host(),
            r.spec_chat() == self.spec_chat(),
            r.spec_cmpl() == self.spec_cmpl(),
            r.spec_template() == self.spec_template(),
            r.spec_runtime() == self.spec_runtime(),
    {
        HttpServiceConfigBuilder { enable_embeddings_endpoints: Some(enable), ..self }
    }

    /// Overrides the request template.
    pub fn with_request_template(self, request_template: Option<RequestTemplate>) -> (r: Self)
        ensures
            r.spec_template() == Some(request_template),
            r.spec_port() == self.spec_port(),
            r.spec_host() == self.spec_host(),
            r.spec_chat() == self.spec_chat(),
            r.spec_cmpl() == self.spec_cmpl(),
            r.spec_embeddings() == self.spec_embeddings(),
            r.spec_runtime() == self.spec_runtime(),
    {
        HttpServiceConfigBuilder { request_template: Some(request_template), ..self }
    }

    /// Overrides the distributed-runtime handle.
    pub fn runtime(self, runtime: Option<Arc<DistributedRuntime>>) -> (r: Self)
        ensures
            r.spec_runtime() == (match runtime {
                Some(rt) => Some(Some(*rt)),
                None => Some(None::<DistributedRuntime>),
            }),
            r.spec_port() == self.spec_port(),
            r.spec_host() == self.spec_host(),
            r.spec_chat() == self.spec_chat(),
            r.spec_cmpl() == self.spec_cmpl(),
            r.spec_embeddings() == self.spec_embeddings(),
            r.spec_template() == self.spec_template(),
    {
        HttpServiceConfigBuilder { runtime: Some(runtime), ..self }
    }

    /// Resolves the declarative configuration: every unset field takes its
    /// default — port 8787, host "0.0.0.0", all three endpoint groups
    /// enabled, no template, no distributed runtime.
    fn build_internal(self) -> (c: HttpServiceConfig)
        ensures
            c.port == self.effective_port(),
            c.host@ == self.effective_host(),
            c.enable_chat_endpoints == self.effective_chat(),
            c.enable_cmpl_endpoints == self.effective_cmpl(),
            c.enable_embeddings_endpoints == self.effective_embeddings(),
            c.request_template == self.effective_template(),
            (match c.runtime {
                Some(rt) => Some(*rt),
                None => None::<DistributedRuntime>,
            }) == self.effective_runtime(),
    {
        let port = match self.port {
            Some(p) => p,
            None => DEFAULT_PORT,
        };
        let host = match self.host {
            Some(h) => h,
            None => "0.0.0.0".to_owned(),
        };
        let enable_chat_endpoints = match self.enable_chat_endpoints {
            Some(b) => b,
            None => true,
        };
        let enable_cmpl_endpoints = match self.enable_cmpl_endpoints {
            Some(b) => b,
            None => true,
        };
        let enable_embeddings_endpoints = match self.enable_embeddings_endpoints {
            Some(b) => b,
            None => true,
        };
        let request_template = match self.request_template {
            Some(t) => t,
            None => None,
        };
        let runtime = match self.runtime {
            Some(rt) => rt,
            None => None,
        };
        HttpServiceConfig {
            port,
            host,
            enable_chat_endpoints,
            enable_cmpl_endpoints,
            enable_embeddings_endpoints,
            request_template,
            runtime,
        }
    }

    /// Finalizes the configuration into a ready service instance.
    ///
    /// The optional discovery client is supplied here, not in the
    /// declarative configuration: its presence is a deployment fact, and it
    /// gates exactly the worker-listing group. Building constructs the model
    /// registry and the shared state, creates a fresh metrics registry and
    /// registers the metrics handle into it — exactly once, so with the
    /// registry fresh the registration, and the build, always succeed.
    pub fn build(self, discovery_client: Option<DiscoveryClient>) -> (r: Result<
        HttpService,
        BuildError,
    >)
        ensures
            r is Ok,
            r matches Ok(s) ==> {
                &&& s.built_from(
                    discovery_client is Some,
                    self.effective_chat(),
                    self.effective_cmpl(),
                    self.effective_embeddings(),
                )
                &&& s.spec_port() == self.effective_port()
                &&& s.spec_host() == self.effective_host()
                &&& s.spec_state().spec_runtime() == self.effective_runtime()
                &&& s.spec_template() == self.effective_template()
            },
    {
        let template = self.effective_template_value();
        let config = self.build_internal();

        let model_manager = Arc::new(ModelManager::new());
        let state = match config.runtime {
            Some(rt) => Arc::new(State::with_runtime(model_manager, rt)),
            None => Arc::new(State::new(model_manager)),
        };

        let mut registry = Registry::new();
        let metrics = state.metrics_clone();
        match metrics.register(&mut registry) {
            Ok(()) => {},
            Err(_) => {
                return Err(BuildError::MetricsRegistration);
            },
        }

        let discovery_present = discovery_client.is_some();
        let (table, route_docs) = compose_routes(
            discovery_present,
            config.enable_chat_endpoints,
            config.enable_cmpl_endpoints,
            config.enable_embeddings_endpoints,
        );

        Ok(
            HttpService {
                state,
                table: Arc::new(table),
                registry,
                port: config.port,
                host: config.host,
                route_docs,
                discovery: discovery_client,
                request_template: template,
            },
        )
    }

    /// The request template the finalized service will carry.
    fn effective_template_value(&self) -> (t: Option<RequestTemplate>)
        ensures
            t == self.effective_template(),
    {
        match &self.request_template {
            Some(Some(t)) => Some(*t),
            Some(None) => None,
            None => None,
        }
    }
}

impl Default for HttpServiceConfigBuilder {
    /// A builder with no overrides: finalizing it yields the enumerated
    /// defaults.
    fn default() -> (b: HttpServiceConfigBuilder)
        ensures
            b.spec_port() is None,
            b.spec_host() is None,
            b.spec_chat() is None,
            b.spec_cmpl() is None,
            b.spec_embeddings() is None,
            b.spec_template() is None,
            b.spec_runtime() is None,
    {
        HttpServiceConfigBuilder {
            port: None,
            host: None,
            enable_chat_endpoints: None,
            enable_cmpl_endpoints: None,
            enable_embeddings_endpoints: None,
            request_template: None,
            runtime: None,
        }
    }
}

/// The built service instance: shared state, merged dispatch table, bound
/// address, and the full ordered documentation. Immutable after
/// construction and cheaply duplicable: a duplicate shares the same state
/// and the same underlying table rather than rebuilding them.
pub struct HttpService {
    state: Arc<State>,
    table: Arc<RouteTable>,
    registry: Registry,
    port: u16,
    host: String,
    route_docs: Vec<RouteDoc>,
    discovery: Option<DiscoveryClient>,
    request_template: Option<RequestTemplate>,
}

impl HttpService {
    /// The shared state of this service.
    pub closed spec fn spec_state(&self) -> State {
        *self.state
    }

    /// The merged dispatch table of this service.
    pub closed spec fn spec_table(&self) -> Seq<SpecRouteEntry> {
        (*self.table)@
    }

    /// The ordered route documentation of this service.
    pub closed spec fn spec_docs(&self) -> Seq<DocEntry> {
        self.route_docs@.map_values(|d: RouteDoc| d@)
    }

    /// The port this service binds.
    pub closed spec fn spec_port(&self) -> u16 {
        self.port
    }

    /// The host this service binds.
    pub closed spec fn spec_host(&self) -> Seq<char> {
        self.host@
    }

    /// Whether a discovery client was supplied at finalization.
    pub closed spec fn spec_discovery_present(&self) -> bool {
        self.discovery is Some
    }

    /// Whether the metrics handle is registered in this service's registry.
    pub closed spec fn spec_registered(&self) -> bool {
        self.registry.spec_registered()
    }

    /// The request template carried for the chat-completions group.
    pub closed spec fn spec_template(&self) -> Option<RequestTemplate> {
        self.request_template
    }

    /// What finalization guarantees of every built service: the dispatch
    /// table and the documentation are exactly the composition plan of the
    /// discovery-client presence and the three endpoint toggles, and the
    /// metrics handle has registered — exactly once — into the service's
    /// fresh registry.
    pub open spec fn built_from(
        &self,
        discovery: bool,
        chat: bool,
        completions: bool,
        embeddings: bool,
    ) -> bool {
        &&& self.spec_table() == table_plan(discovery, chat, completions, embeddings)
        &&& self.spec_docs() == docs_plan(discovery, chat, completions, embeddings)
        &&& self.spec_discovery_present() == discovery
        &&& self.spec_registered()
    }

    /// A builder with no overrides.
    pub fn builder() -> (b: HttpServiceConfigBuilder)
        ensures
            b.spec_port() is None,
            b.spec_host() is None,
            b.spec_chat() is None,
            b.spec_cmpl() is None,
            b.spec_embeddings() is None,
            b.spec_template() is None,
            b.spec_runtime() is None,
    {
        HttpServiceConfigBuilder::default()
    }

    /// Shares the service state.
    pub fn state_clone(&self) -> (s: Arc<State>)
        ensures
            *s == self.spec_state(),
    {
        self.state.clone()
    }

    /// Read-only access to the service state.
    pub fn state(&self) -> (s: &State)
        ensures
            *s == self.spec_state(),
    {
        &*self.state
    }

    /// Read-only access to the model registry.
    pub fn model_manager(&self) -> (m: &ModelManager)
        ensures
            *m == self.spec_state().spec_manager(),
    {
        self.state().manager()
    }

    /// Documentation of the exposed endpoints, in registration order,
    /// reflecting exactly the groups enabled at build time.
    pub fn route_docs(&self) -> (docs: &Vec<RouteDoc>)
        ensures
            docs@.map_values(|d: RouteDoc| d@) == self.spec_docs(),
    {
        &self.route_docs
    }

    /// The merged dispatch table.
    pub fn table(&self) -> (t: &RouteTable)
        ensures
            t@ == self.spec_table(),
    {
        &*self.table
    }

    /// Resolves a request line against the service's dispatch table;
    /// `None` is a no-route response.
    pub fn dispatch(&self, m: HttpMethod, path: &String) -> (r: Option<RouteGroup>)
        ensures
            r == spec_dispatch(self.spec_table(), m, path@),
    {
        self.table.dispatch(m, path)
    }

    /// The port this service binds.
    pub fn port(&self) -> (p: u16)
        ensures
            p == self.spec_port(),
    {
        self.port
    }

    /// The host this service binds.
    pub fn host(&self) -> (h: &String)
        ensures
            h@ == self.spec_host(),
    {
        &self.host
    }

    /// The discovery client supplied at finalization, if any.
    pub fn discovery_client(&self) -> (c: &Option<DiscoveryClient>)
        ensures
            (*c is Some) == self.spec_discovery_present(),
    {
        &self.discovery
    }

    /// The request template carried for the chat-completions group.
    pub fn request_template(&self) -> (t: &Option<RequestTemplate>)
        ensures
            *t == self.spec_template(),
    {
        &self.request_template
    }
}

impl Clone for HttpService {
    /// Duplicates the instance cheaply: the duplicate shares the same state
    /// and the same underlying dispatch table rather than rebuilding them,
    /// and observes the same bound address and documentation.
    fn clone(&self) -> (r: Self)
        ensures
            r.spec_state() == self.spec_state(),
            r.spec_table() == self.spec_table(),
            r.spec_docs() == self.spec_docs(),
            r.spec_port() == self.spec_port(),
            r.spec_host() == self.spec_host(),
            r.spec_discovery_present() == self.spec_discovery_present(),
            r.spec_registered() == self.spec_registered(),
            r.spec_template() == self.spec_template(),
    {
        HttpService {
            state: self.state.clone(),
            table: self.table.clone(),
            registry: self.registry.clone(),
            port: self.port,
            host: self.host.clone(),
            route_docs: clone_docs(&self.route_docs),
            discovery: self.discovery,
            request_template: self.request_template,
        }
    }
}

/// Default configuration: with no overrides the built service binds
/// "0.0.0.0" at port 8787, the chat, completions and embeddings groups are
/// all reachable, and the metrics, model-listing, health and cache-eviction
/// groups are present as they are in every configuration.
pub proof fn lemma_default_configuration(
    b: HttpServiceConfigBuilder,
    s: HttpService,
    discovery: bool,
)
    requires
        b.spec_port() is None,
        b.spec_host() is None,
        b.spec_chat() is None,
        b.spec_cmpl() is None,
        b.spec_embeddings() is None,
        s.built_from(discovery, b.effective_chat(), b.effective_cmpl(), b.effective_embeddings()),
        s.spec_port() == b.effective_port(),
        s.spec_host() == b.effective_host(),
    ensures
        s.spec_port() == 8787,
        s.spec_host() == "0.0.0.0"@,
        forall|g: RouteGroup|
            !(g is WorkerList) ==> #[trigger] spec_dispatch(
                s.spec_table(),
                g.spec_method(),
                g.spec_path(),
            ) == Some(g),
{
    assert forall|g: RouteGroup|
        !(g is WorkerList) implies #[trigger] spec_dispatch(
        s.spec_table(),
        g.spec_method(),
        g.spec_path(),
    ) == Some(g) by {
        crate::routes::lemma_dispatch_plan(discovery, true, true, true, g);
    }
}

/// Exact reachability of a built service: a group's method and path
/// dispatch to that group exactly when the group was present at build time
/// — enabled by its toggle, or, for worker listing, gated by the supplied
/// discovery client — and to a no-route response otherwise.
pub proof fn lemma_service_reachability(
    s: HttpService,
    discovery: bool,
    chat: bool,
    completions: bool,
    embeddings: bool,
    g: RouteGroup,
)
    requires
        s.built_from(discovery, chat, completions, embeddings),
    ensures
        spec_dispatch(s.spec_table(), g.spec_method(), g.spec_path()) == (if group_present(
            g,
            discovery,
            chat,
            completions,
            embeddings,
        ) {
            Some(g)
        } else {
            None::<RouteGroup>
        }),
{
    crate::routes::lemma_dispatch_plan(discovery, chat, completions, embeddings, g);
}

/// Builds from equal inputs are equal where it can be observed: the same
/// discovery-client presence and toggles always compose the same dispatch
/// table and the same documentation, in the same order and of the same
/// length.
pub proof fn lemma_build_deterministic(
    s1: HttpService,
    s2: HttpService,
    discovery: bool,
    chat: bool,
    completions: bool,
    embeddings: bool,
)
    requires
        s1.built_from(discovery, chat, completions, embeddings),
        s2.built_from(discovery, chat, completions, embeddings),
    ensures
        s1.spec_table() == s2.spec_table(),
        s1.spec_docs() == s2.spec_docs(),
        s1.spec_docs().len() == s2.spec_docs().len(),
{
}

} // verus!
