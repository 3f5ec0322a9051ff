//! What a request asks for before its body is read: the endpoint, the node it
//! is pinned to, whether it is debugged, whether the request history is
//! printed, and which table's metadata it names.

use vstd::prelude::*;

use crate::handlers::{prints_request_history, spec_prints_history};
use crate::request::{
    debug_requested, first_value, first_value_or, has_debug_pair, lemma_first_value_ignores_other_names,
    pairs_view, NodeAddress,
};
use crate::routing::{route, spec_route, HttpMethod, Route};

verus! {

/// The options of a request, decided from its method, path, query pairs and
/// `node` header.
#[derive(Debug)]
pub struct RequestPlan {
    pub route: Route,
    /// The node that the endpoint's statements are pinned to.
    pub node: Option<NodeAddress>,
    pub debug: bool,
    /// Whether the collected request history is printed once the endpoint
    /// has answered.
    pub prints_history: bool,
    /// The keyspace and table whose metadata `/metadata` shows.
    pub keyspace: String,
    pub table: String,
}

/// A request plan taken by value.
pub struct PlanView {
    pub route: Route,
    pub node: Option<NodeAddress>,
    pub debug: bool,
    pub prints_history: bool,
    pub keyspace: Seq<char>,
    pub table: Seq<char>,
}

impl View for RequestPlan {
    type V = PlanView;

    open spec fn view(&self) -> PlanView {
        PlanView {
            route: self.route,
            node: self.node,
            debug: self.debug,
            prints_history: self.prints_history,
            keyspace: self.keyspace@,
            table: self.table@,
        }
    }
}

/// Whether an endpoint can be pinned to a node: all can but the token-range
/// scan, which reads where the token range lives, and the metadata endpoint,
/// which runs no statement.
pub open spec fn takes_node(route: Route) -> bool {
    route != Route::CustomQueryTokenRange && route != Route::Metadata && route != Route::NotFound
}

/// The plan of a request: its endpoint by method and path; pinned to the
/// node of its `node` header when the endpoint takes one; debugged when a
/// query pair is `debug=true`; the metadata of the table named by the first
/// `keyspace` and `table` query pairs, `demo.items` by default.
pub open spec fn spec_plan(
    method: HttpMethod,
    path: Seq<char>,
    pairs: Seq<(Seq<char>, Seq<char>)>,
    node: Option<NodeAddress>,
) -> PlanView {
    let r = spec_route(method, path);
    let debug = has_debug_pair(pairs);
    PlanView {
        route: r,
        node: if takes_node(r) {
            node
        } else {
            None
        },
        debug,
        prints_history: spec_prints_history(r, debug),
        keyspace: first_value_or(pairs, "keyspace"@, "demo"@),
        table: first_value_or(pairs, "table"@, "items"@),
    }
}

/// The endpoints whose statements a `node` header pins: every endpoint that
/// runs statements, except the token-range scan.
pub open spec fn runs_pinnable_statements(route: Route) -> bool {
    ||| route == Route::Insert
    ||| route == Route::InsertBatch
    ||| route == Route::InsertPrepared
    ||| route == Route::QueryIter
    ||| route == Route::CustomInsert
    ||| route == Route::CustomQuery
    ||| route == Route::CustomQueryPaged
    ||| route == Route::CustomQueryPagedAll
}

/// A request to an endpoint that runs statements, other than the
/// token-range scan, is pinned to exactly the node its `node` header names
/// (and to none when it names none); the token-range scan, the metadata
/// endpoint and unknown paths are never pinned.
pub proof fn lemma_node_header_pins_statements(
    method: HttpMethod,
    path: Seq<char>,
    pairs: Seq<(Seq<char>, Seq<char>)>,
    node: Option<NodeAddress>,
)
    ensures
        runs_pinnable_statements(spec_route(method, path)) ==> spec_plan(
            method,
            path,
            pairs,
            node,
        ).node == node,
        !runs_pinnable_statements(spec_route(method, path)) ==> spec_plan(
            method,
            path,
            pairs,
            node,
        ).node is None,
{
}

/// Plans a request from its method, path, decoded query pairs and the node
/// its `node` header names.
pub fn plan_request(
    method: HttpMethod,
    path: &str,
    pairs: &Vec<(String, String)>,
    node: Option<NodeAddress>,
) -> (r: RequestPlan)
    ensures
        r@ == spec_plan(method, path@, pairs_view(pairs@), node),
        runs_pinnable_statements(spec_route(method, path@)) ==> r.node == node,
        !runs_pinnable_statements(spec_route(method, path@)) ==> r.node is None,
{
    let r = route(method, path);
    let debug = debug_requested(pairs);
    let pinned = match r {
        Route::CustomQueryTokenRange | Route::Metadata | Route::NotFound => None,
        _ => node,
    };
    RequestPlan {
        route: r,
        node: pinned,
        debug,
        prints_history: prints_request_history(r, debug),
        keyspace: first_value(pairs, "keyspace", "demo"),
        table: first_value(pairs, "table", "items"),
    }
}

/// Adding `debug=true` anywhere in a request's query changes nothing but
/// its debug flag and whether it prints the request history: the endpoint,
/// the node, and the table it names stay the same.
pub proof fn lemma_debug_changes_no_reply(
    method: HttpMethod,
    path: Seq<char>,
    pairs: Seq<(Seq<char>, Seq<char>)>,
    at: int,
    node: Option<NodeAddress>,
)
    requires
        0 <= at <= pairs.len(),
    ensures
        ({
            let with = spec_plan(method, path, pairs.insert(at, ("debug"@, "true"@)), node);
            let without = spec_plan(method, path, pairs, node);
            &&& with.route == without.route
            &&& with.node == without.node
            &&& with.keyspace == without.keyspace
            &&& with.table == without.table
            &&& with.debug
            &&& with.prints_history == spec_prints_history(with.route, true)
        }),
{
    reveal_strlit("debug");
    reveal_strlit("keyspace");
    reveal_strlit("table");
    reveal_strlit("true");
    let extra = ("debug"@, "true"@);
    let more = pairs.insert(at, extra);
    assert(more[at] == extra);
    assert(has_debug_pair(more));
    assert("debug"@[0] != "keyspace"@[0]);
    assert("debug"@[0] != "table"@[0]);
    lemma_first_value_ignores_other_names(pairs, at, extra, "keyspace"@, "demo"@);
    lemma_first_value_ignores_other_names(pairs, at, extra, "table"@, "items"@);
}

} // verus!
