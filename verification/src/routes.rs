//! Route composition: a fixed registration order of endpoint groups, each
//! conditionally enabled, merged into one dispatch table with the
//! documentation entries concatenated in registration order.
//!
//! Merge semantics are last-registered-wins: if two entries ever carry the
//! same method and path, dispatch resolves to the entry registered later.

use vstd::prelude::*;

use crate::docs::{DocEntry, HttpMethod, RouteDoc};

verus! {

/// The endpoint groups the service can expose. The first four are always
/// present; worker listing is gated on the presence of a discovery client,
/// the remaining three on their configuration toggles.
#[derive(Clone, Copy, PartialEq, Eq, Structural, Debug)]
pub enum RouteGroup {
    Metrics,
    ModelList,
    Health,
    ClearKvBlocks,
    WorkerList,
    ChatCompletions,
    Completions,
    Embeddings,
}

impl RouteGroup {
    /// Method of the group's endpoint.
    pub open spec fn spec_method(self) -> HttpMethod {
        match self {
            RouteGroup::Metrics => HttpMethod::Get,
            RouteGroup::ModelList => HttpMethod::Get,
            RouteGroup::Health => HttpMethod::Get,
            RouteGroup::ClearKvBlocks => HttpMethod::Post,
            RouteGroup::WorkerList => HttpMethod::Get,
            RouteGroup::ChatCompletions => HttpMethod::Post,
            RouteGroup::Completions => HttpMethod::Post,
            RouteGroup::Embeddings => HttpMethod::Post,
        }
    }

    /// Path of the group's endpoint. Paths are pairwise distinct across
    /// groups ([`lemma_group_paths_distinct`]).
    pub open spec fn spec_path(self) -> Seq<char> {
        match self {
            RouteGroup::Metrics => "/metrics"@,
            RouteGroup::ModelList => "/v1/models"@,
            RouteGroup::Health => "/health"@,
            RouteGroup::ClearKvBlocks => "/clear_kv_blocks"@,
            RouteGroup::WorkerList => "/workers"@,
            RouteGroup::ChatCompletions => "/v1/chat/completions"@,
            RouteGroup::Completions => "/v1/completions"@,
            RouteGroup::Embeddings => "/v1/embeddings"@,
        }
    }

    /// Description shown in the route documentation.
    pub open spec fn spec_description(self) -> Seq<char> {
        match self {
            RouteGroup::Metrics => "Prometheus metrics exposition"@,
            RouteGroup::ModelList => "List the models currently served"@,
            RouteGroup::Health => "Service health check"@,
            RouteGroup::ClearKvBlocks => "Evict cached KV blocks on the served workers"@,
            RouteGroup::WorkerList => "List the live worker endpoints known to discovery"@,
            RouteGroup::ChatCompletions => "OpenAI-style chat completions"@,
            RouteGroup::Completions => "OpenAI-style completions"@,
            RouteGroup::Embeddings => "OpenAI-style embeddings"@,
        }
    }

    /// The group's documentation entry.
    pub open spec fn spec_doc(self) -> DocEntry {
        DocEntry {
            method: self.spec_method(),
            path: self.spec_path(),
            description: self.spec_description(),
        }
    }

    /// Method of the group's endpoint.
    pub fn method(&self) -> (m: HttpMethod)
        ensures
            m == self.spec_method(),
    {
        match self {
            RouteGroup::Metrics => HttpMethod::Get,
            RouteGroup::ModelList => HttpMethod::Get,
            RouteGroup::Health => HttpMethod::Get,
            RouteGroup::ClearKvBlocks => HttpMethod::Post,
            RouteGroup::WorkerList => HttpMethod::Get,
            RouteGroup::ChatCompletions => HttpMethod::Post,
            RouteGroup::Completions => HttpMethod::Post,
            RouteGroup::Embeddings => HttpMethod::Post,
        }
    }

    /// Path of the group's endpoint.
    pub fn path(&self) -> (p: String)
        ensures
            p@ == self.spec_path(),
    {
        match self {
            RouteGroup::Metrics => "/metrics".to_owned(),
            RouteGroup::ModelList => "/v1/models".to_owned(),
            RouteGroup::Health => "/health".to_owned(),
            RouteGroup::ClearKvBlocks => "/clear_kv_blocks".to_owned(),
            RouteGroup::WorkerList => "/workers".to_owned(),
            RouteGroup::ChatCompletions => "/v1/chat/completions".to_owned(),
            RouteGroup::Completions => "/v1/completions".to_owned(),
            RouteGroup::Embeddings => "/v1/embeddings".to_owned(),
        }
    }

    /// Description shown in the route documentation.
    pub fn description(&self) -> (d: String)
        ensures
            d@ == self.spec_description(),
    {
        match self {
            RouteGroup::Metrics => "Prometheus metrics exposition".to_owned(),
            RouteGroup::ModelList => "List the models currently served".to_owned(),
            RouteGroup::Health => "Service health check".to_owned(),
            RouteGroup::ClearKvBlocks => "Evict cached KV blocks on the served workers".to_owned(),
            RouteGroup::WorkerList => "List the live worker endpoints known to discovery".to_owned(),
            RouteGroup::ChatCompletions => "OpenAI-style chat completions".to_owned(),
            RouteGroup::Completions => "OpenAI-style completions".to_owned(),
            RouteGroup::Embeddings => "OpenAI-style embeddings".to_owned(),
        }
    }

    /// Builds the group's documentation entry.
    pub fn doc(&self) -> (d: RouteDoc)
        ensures
            d@ == self.spec_doc(),
    {
        RouteDoc::new(self.method(), self.path(), self.description())
    }
}

/// Whether a group is part of the service for the given discovery-client
/// presence and endpoint toggles.
pub open spec fn group_present(
    g: RouteGroup,
    discovery: bool,
    chat: bool,
    completions: bool,
    embeddings: bool,
) -> bool {
    match g {
        RouteGroup::Metrics => true,
        RouteGroup::ModelList => true,
        RouteGroup::Health => true,
        RouteGroup::ClearKvBlocks => true,
        RouteGroup::WorkerList => discovery,
        RouteGroup::ChatCompletions => chat,
        RouteGroup::Completions => completions,
        RouteGroup::Embeddings => embeddings,
    }
}

/// The groups of the service, in registration order: metrics, model listing,
/// health, cache-eviction control, then worker listing iff a discovery client
/// is present, then each toggled group iff enabled. The order of the groups
/// that are present never depends on which others are.
pub open spec fn registration_plan(
    discovery: bool,
    chat: bool,
    completions: bool,
    embeddings: bool,
) -> Seq<RouteGroup> {
    seq![
        RouteGroup::Metrics,
        RouteGroup::ModelList,
        RouteGroup::Health,
        RouteGroup::ClearKvBlocks,
    ] + (if discovery {
        seq![RouteGroup::WorkerList]
    } else {
        Seq::empty()
    }) + (if chat {
        seq![RouteGroup::ChatCompletions]
    } else {
        Seq::empty()
    }) + (if completions {
        seq![RouteGroup::Completions]
    } else {
        Seq::empty()
    }) + (if embeddings {
        seq![RouteGroup::Embeddings]
    } else {
        Seq::empty()
    })
}

/// Mathematical value of a dispatch-table entry.
pub struct SpecRouteEntry {
    pub method: HttpMethod,
    pub path: Seq<char>,
    pub group: RouteGroup,
}

/// The canonical table entry of a group.
pub open spec fn spec_entry(g: RouteGroup) -> SpecRouteEntry {
    SpecRouteEntry { method: g.spec_method(), path: g.spec_path(), group: g }
}

/// The dispatch table a given configuration composes: one canonical entry
/// per present group, in registration order.
pub open spec fn table_plan(
    discovery: bool,
    chat: bool,
    completions: bool,
    embeddings: bool,
) -> Seq<SpecRouteEntry> {
    registration_plan(discovery, chat, completions, embeddings).map_values(
        |g: RouteGroup| spec_entry(g),
    )
}

/// The documentation a given configuration composes, in registration order.
pub open spec fn docs_plan(
    discovery: bool,
    chat: bool,
    completions: bool,
    embeddings: bool,
) -> Seq<DocEntry> {
    registration_plan(discovery, chat, completions, embeddings).map_values(
        |g: RouteGroup| g.spec_doc(),
    )
}

/// Last-registered-wins resolution: the latest entry whose method and path
/// both match decides the group; with no match there is no route.
pub open spec fn spec_dispatch(
    entries: Seq<SpecRouteEntry>,
    m: HttpMethod,
    path: Seq<char>,
) -> Option<RouteGroup>
    decreases entries.len(),
{
    if entries.len() == 0 {
        None
    } else if entries.last().method == m && entries.last().path == path {
        Some(entries.last().group)
    } else {
        spec_dispatch(entries.drop_last(), m, path)
    }
}

/// Distinct groups expose distinct paths, so no group's endpoint can shadow
/// another's in the merged table.
pub proof fn lemma_group_paths_distinct(g1: RouteGroup, g2: RouteGroup)
    requires
        g1 != g2,
    ensures
        g1.spec_path() != g2.spec_path(),
{
    reveal_strlit("/metrics");
    reveal_strlit("/v1/models");
    reveal_strlit("/health");
    reveal_strlit("/clear_kv_blocks");
    reveal_strlit("/workers");
    reveal_strlit("/v1/chat/completions");
    reveal_strlit("/v1/completions");
    reveal_strlit("/v1/embeddings");
    assert("/metrics"@.len() == 8);
    assert("/v1/models"@.len() == 10);
    assert("/health"@.len() == 7);
    assert("/clear_kv_blocks"@.len() == 16);
    assert("/workers"@.len() == 8);
    assert("/v1/chat/completions"@.len() == 20);
    assert("/v1/completions"@.len() == 15);
    assert("/v1/embeddings"@.len() == 14);
    assert("/metrics"@[1] == 'm');
    assert("/workers"@[1] == 'w');
}

/// Every entry is the canonical entry of its group.
pub open spec fn entries_canonical(entries: Seq<SpecRouteEntry>) -> bool {
    forall|i: int| 0 <= i < entries.len() ==> entries[i] == spec_entry(#[trigger] entries[i].group)
}

/// On a table of canonical entries, a group's own method and path dispatch
/// to exactly that group when some entry carries it, and to no route
/// otherwise.
pub proof fn lemma_dispatch_group(entries: Seq<SpecRouteEntry>, g: RouteGroup)
    requires
        entries_canonical(entries),
    ensures
        spec_dispatch(entries, g.spec_method(), g.spec_path()) == (if (exists|i: int|
            0 <= i < entries.len() && entries[i].group == g) {
            Some(g)
        } else {
            None::<RouteGroup>
        }),
    decreases entries.len(),
{
    if entries.len() > 0 {
        let n = entries.len() as int;
        let last = entries.last();
        assert(entries[n - 1] == spec_entry(entries[n - 1].group));
        if last.group == g {
            assert(entries[n - 1].group == g);
        } else {
            lemma_group_paths_distinct(last.group, g);
            assert(entries_canonical(entries.drop_last())) by {
                assert(forall|i: int|
                    0 <= i < n - 1 ==> entries.drop_last()[i] == entries[i]);
            }
            lemma_dispatch_group(entries.drop_last(), g);
            if exists|i: int| 0 <= i < n && entries[i].group == g {
                let i = choose|i: int| 0 <= i < n && entries[i].group == g;
                assert(i < n - 1);
                assert(entries.drop_last()[i].group == g);
            }
        }
    }
}

/// On a table of canonical entries, a request line that is no group's
/// identity dispatches to no route.
pub proof fn lemma_dispatch_unknown(entries: Seq<SpecRouteEntry>, m: HttpMethod, path: Seq<char>)
    requires
        entries_canonical(entries),
        forall|g: RouteGroup| !(m == g.spec_method() && path == g.spec_path()),
    ensures
        spec_dispatch(entries, m, path) is None,
    decreases entries.len(),
{
    if entries.len() > 0 {
        let n = entries.len() as int;
        assert(entries[n - 1] == spec_entry(entries[n - 1].group));
        assert(!(m == entries[n - 1].group.spec_method() && path == entries[n
            - 1].group.spec_path()));
        assert(entries_canonical(entries.drop_last())) by {
            assert(forall|i: int| 0 <= i < n - 1 ==> entries.drop_last()[i] == entries[i]);
        }
        lemma_dispatch_unknown(entries.drop_last(), m, path);
    }
}

/// Every composed table consists of canonical entries.
pub proof fn lemma_table_plan_canonical(
    discovery: bool,
    chat: bool,
    completions: bool,
    embeddings: bool,
)
    ensures
        entries_canonical(table_plan(discovery, chat, completions, embeddings)),
{
    let plan = registration_plan(discovery, chat, completions, embeddings);
    let table = table_plan(discovery, chat, completions, embeddings);
    assert(forall|i: int| 0 <= i < table.len() ==> #[trigger] table[i] == spec_entry(plan[i]));
}

/// A group occurs in the registration plan exactly when it is present for
/// the given discovery-client presence and toggles.
pub proof fn lemma_plan_membership(
    discovery: bool,
    chat: bool,
    completions: bool,
    embeddings: bool,
    g: RouteGroup,
)
    ensures
        (exists|i: int|
            0 <= i < registration_plan(discovery, chat, completions, embeddings).len()
                && registration_plan(discovery, chat, completions, embeddings)[i] == g)
            <==> group_present(g, discovery, chat, completions, embeddings),
{
    let plan = registration_plan(discovery, chat, completions, embeddings);
    if group_present(g, discovery, chat, completions, embeddings) {
        let di: int = if discovery { 1 } else { 0 };
        let ci: int = if chat { 1 } else { 0 };
        let pi: int = if completions { 1 } else { 0 };
        match g {
            RouteGroup::Metrics => assert(plan[0] == g),
            RouteGroup::ModelList => assert(plan[1] == g),
            RouteGroup::Health => assert(plan[2] == g),
            RouteGroup::ClearKvBlocks => assert(plan[3] == g),
            RouteGroup::WorkerList => assert(plan[4] == g),
            RouteGroup::ChatCompletions => assert(plan[4 + di] == g),
            RouteGroup::Completions => assert(plan[4 + di + ci] == g),
            RouteGroup::Embeddings => assert(plan[4 + di + ci + pi] == g),
        }
    } else {
        assert(forall|i: int|
            0 <= i < plan.len() ==> group_present(#[trigger] plan[i], discovery, chat,
            completions, embeddings));
    }
}

/// Exact reachability: for every combination of discovery-client presence
/// and endpoint toggles, a group's method and path dispatch to that group
/// exactly when the group is present, and to no route otherwise.
pub proof fn lemma_dispatch_plan(
    discovery: bool,
    chat: bool,
    completions: bool,
    embeddings: bool,
    g: RouteGroup,
)
    ensures
        spec_dispatch(
            table_plan(discovery, chat, completions, embeddings),
            g.spec_method(),
            g.spec_path(),
        ) == (if group_present(g, discovery, chat, completions, embeddings) {
            Some(g)
        } else {
            None::<RouteGroup>
        }),
{
    let plan = registration_plan(discovery, chat, completions, embeddings);
    let table = table_plan(discovery, chat, completions, embeddings);
    lemma_table_plan_canonical(discovery, chat, completions, embeddings);
    lemma_plan_membership(discovery, chat, completions, embeddings, g);
    lemma_dispatch_group(table, g);
    assert(forall|i: int| 0 <= i < table.len() ==> #[trigger] table[i].group == plan[i]);
    if exists|i: int| 0 <= i < plan.len() && plan[i] == g {
        let i = choose|i: int| 0 <= i < plan.len() && plan[i] == g;
        assert(table[i].group == g);
    }
    if exists|i: int| 0 <= i < table.len() && table[i].group == g {
        let i = choose|i: int| 0 <= i < table.len() && table[i].group == g;
        assert(plan[i] == g);
    }
}

/// A request line that is no group's identity dispatches to no route in any
/// composed table.
pub proof fn lemma_plan_no_route(
    discovery: bool,
    chat: bool,
    completions: bool,
    embeddings: bool,
    m: HttpMethod,
    path: Seq<char>,
)
    requires
        forall|g: RouteGroup| !(m == g.spec_method() && path == g.spec_path()),
    ensures
        spec_dispatch(table_plan(discovery, chat, completions, embeddings), m, path) is None,
{
    lemma_table_plan_canonical(discovery, chat, completions, embeddings);
    lemma_dispatch_unknown(table_plan(discovery, chat, completions, embeddings), m, path);
}

/// The worker-listing gate: supplying a discovery client adds exactly the
/// worker-listing group; omitting it yields no such route.
pub proof fn lemma_worker_listing_gate(
    discovery: bool,
    chat: bool,
    completions: bool,
    embeddings: bool,
)
    ensures
        spec_dispatch(
            table_plan(discovery, chat, completions, embeddings),
            RouteGroup::WorkerList.spec_method(),
            RouteGroup::WorkerList.spec_path(),
        ) == (if discovery {
            Some(RouteGroup::WorkerList)
        } else {
            None::<RouteGroup>
        }),
{
    lemma_dispatch_plan(discovery, chat, completions, embeddings, RouteGroup::WorkerList);
}

/// The metrics, model-listing, health and cache-eviction groups are present
/// and reachable in every composed table, regardless of the discovery-client
/// presence and the endpoint toggles.
pub proof fn lemma_always_present_groups(
    discovery: bool,
    chat: bool,
    completions: bool,
    embeddings: bool,
)
    ensures
        forall|g: RouteGroup|
            (g is Metrics || g is ModelList || g is Health || g is ClearKvBlocks)
                ==> #[trigger] spec_dispatch(
                table_plan(discovery, chat, completions, embeddings),
                g.spec_method(),
                g.spec_path(),
            ) == Some(g),
{
    assert forall|g: RouteGroup|
        (g is Metrics || g is ModelList || g is Health || g is ClearKvBlocks)
            implies #[trigger] spec_dispatch(
            table_plan(discovery, chat, completions, embeddings),
            g.spec_method(),
            g.spec_path(),
        ) == Some(g) by {
        lemma_dispatch_plan(discovery, chat, completions, embeddings, g);
    }
}

/// Introspection matches dispatch: the documentation and the table of one
/// composition are equally long and agree entry for entry on group, method
/// and path, so the documented endpoints are exactly the dispatchable ones.
pub proof fn lemma_docs_match_table(
    discovery: bool,
    chat: bool,
    completions: bool,
    embeddings: bool,
)
    ensures
        docs_plan(discovery, chat, completions, embeddings).len() == table_plan(
            discovery,
            chat,
            completions,
            embeddings,
        ).len(),
        forall|i: int|
            0 <= i < docs_plan(discovery, chat, completions, embeddings).len() ==> {
                let d = #[trigger] docs_plan(discovery, chat, completions, embeddings)[i];
                let e = table_plan(discovery, chat, completions, embeddings)[i];
                d.method == e.method && d.path == e.path
            },
{
}

/// Documentation is deterministic: two compositions over the same inputs
/// yield the same documentation entries in the same order, and hence the
/// same length.
pub proof fn lemma_docs_deterministic(
    docs1: Seq<DocEntry>,
    docs2: Seq<DocEntry>,
    discovery: bool,
    chat: bool,
    completions: bool,
    embeddings: bool,
)
    requires
        docs1 == docs_plan(discovery, chat, completions, embeddings),
        docs2 == docs_plan(discovery, chat, completions, embeddings),
    ensures
        docs1 == docs2,
        docs1.len() == docs2.len(),
{
}

/// One entry of the merged dispatch table.
#[derive(Clone, PartialEq, Eq, Debug)]
pub struct RouteEntry {
    pub method: HttpMethod,
    pub path: String,
    pub group: RouteGroup,
}

impl View for RouteEntry {
    type V = SpecRouteEntry;

    open spec fn view(&self) -> SpecRouteEntry {
        SpecRouteEntry { method: self.method, path: self.path@, group: self.group }
    }
}

/// The merged dispatch table: entries in registration order, resolved with
/// last-registered-wins.
#[derive(Debug)]
pub struct RouteTable {
    entries: Vec<RouteEntry>,
}

impl View for RouteTable {
    type V = Seq<SpecRouteEntry>;

    closed spec fn view(&self) -> Seq<SpecRouteEntry> {
        self.entries@.map_values(|e: RouteEntry| e@)
    }
}

impl RouteTable {
    /// An empty table: nothing dispatches.
    pub fn new() -> (t: RouteTable)
        ensures
            t@ == Seq::<SpecRouteEntry>::empty(),
    {
        let t = RouteTable { entries: Vec::new() };
        proof {
            assert(t@ =~= Seq::<SpecRouteEntry>::empty());
        }
        t
    }

    /// Registers one entry after all existing ones, so that it wins any tie
    /// on method and path against entries registered earlier.
    pub fn register(&mut self, e: RouteEntry)
        ensures
            final(self)@ == old(self)@.push(e@),
    {
        self.entries.push(e);
        proof {
            assert(self@ =~= old(self)@.push(e@));
        }
    }

    /// Number of registered entries.
    pub fn len(&self) -> (n: usize)
        ensures
            n == self@.len(),
    {
        self.entries.len()
    }

    /// Read-only access to the registered entries, in registration order.
    pub fn entries(&self) -> (es: &Vec<RouteEntry>)
        ensures
            es@.map_values(|e: RouteEntry| e@) == self@,
    {
        &self.entries
    }

    /// Resolves a request line against the table: the latest matching entry
    /// wins; `None` means no route.
    pub fn dispatch(&self, m: HttpMethod, path: &String) -> (r: Option<RouteGroup>)
        ensures
            r == spec_dispatch(self@, m, path@),
    {
        let n = self.entries.len();
        let mut i: usize = n;
        proof {
            assert(self@.take(n as int) =~= self@);
        }
        while i > 0
            invariant
                i <= self@.len(),
                n == self@.len(),
                spec_dispatch(self@, m, path@) == spec_dispatch(self@.take(i as int), m, path@),
            decreases i,
        {
            i = i - 1;
            let e = &self.entries[i];
            proof {
                assert(self@[i as int] == e@);
                assert(self@.take(i as int + 1).last() == self@[i as int]);
                assert(self@.take(i as int + 1).drop_last() =~= self@.take(i as int));
            }
            if e.method == m && e.path.eq(path) {
                return Some(e.group);
            }
        }
        proof {
            assert(self@.take(0) =~= Seq::<SpecRouteEntry>::empty());
        }
        None
    }
}

/// Composes the dispatch table and the documentation list for a given
/// discovery-client presence and set of endpoint toggles. The result is a
/// function of these four inputs alone: repeated composition with the same
/// inputs yields the same table and the same documentation.
pub fn compose_routes(
    discovery: bool,
    chat: bool,
    completions: bool,
    embeddings: bool,
) -> (r: (RouteTable, Vec<RouteDoc>))
    ensures
        r.0@ == table_plan(discovery, chat, completions, embeddings),
        r.1@.map_values(|d: RouteDoc| d@) == docs_plan(discovery, chat, completions, embeddings),
{
    let mut table = RouteTable::new();
    let mut all_docs: Vec<RouteDoc> = Vec::new();
    register_group(&mut table, &mut all_docs, RouteGroup::Metrics);
    register_group(&mut table, &mut all_docs, RouteGroup::ModelList);
    register_group(&mut table, &mut all_docs, RouteGroup::Health);
    register_group(&mut table, &mut all_docs, RouteGroup::ClearKvBlocks);
    if discovery {
        register_group(&mut table, &mut all_docs, RouteGroup::WorkerList);
    }
    if chat {
        register_group(&mut table, &mut all_docs, RouteGroup::ChatCompletions);
    }
    if completions {
        register_group(&mut table, &mut all_docs, RouteGroup::Completions);
    }
    if embeddings {
        register_group(&mut table, &mut all_docs, RouteGroup::Embeddings);
    }
    proof {
        assert(table@ =~= table_plan(discovery, chat, completions, embeddings));
        assert(all_docs@.map_values(|d: RouteDoc| d@) =~= docs_plan(
            discovery,
            chat,
            completions,
            embeddings,
        ));
    }
    (table, all_docs)
}

/// Registers one group: appends its canonical table entry and its
/// documentation entry.
fn register_group(table: &mut RouteTable, all_docs: &mut Vec<RouteDoc>, g: RouteGroup)
    ensures
        final(table)@ == old(table)@.push(spec_entry(g)),
        final(all_docs)@.map_values(|d: RouteDoc| d@) == old(all_docs)@.map_values(
            |d: RouteDoc| d@,
        ).push(g.spec_doc()),
{
    let entry = RouteEntry { method: g.method(), path: g.path(), group: g };
    table.register(entry);
    let d = g.doc();
    all_docs.push(d);
    proof {
        assert(all_docs@.map_values(|d: RouteDoc| d@) =~= old(all_docs)@.map_values(
            |d: RouteDoc| d@,
        ).push(g.spec_doc()));
    }
}

} // verus!
