//! The description of the HTTP interface, as an OpenAPI document.

use crate::config::{slash_path, taken_path};
use crate::json::{json_text, object_view, put, Json, JsonView};
use crate::text::starts;
use vstd::prelude::*;

verus! {

/// What a response holds.
#[derive(Debug, Clone, Copy, PartialEq, Eq, Structural)]
pub enum Content {
    Json,
    /// A stream of server-sent events.
    Events,
    /// A module of JavaScript.
    Script,
    Empty,
}

/// One operation on a path.
#[derive(Debug)]
pub struct Operation {
    pub method: &'static str,
    pub summary: &'static str,
    /// Whether a bearer token is needed.
    pub secured: bool,
    pub responses: Vec<(&'static str, Content)>,
}

#[verifier::ext_equal]
pub struct OperationView {
    pub method: Seq<char>,
    pub summary: Seq<char>,
    pub secured: bool,
    pub responses: Seq<(Seq<char>, Content)>,
}

impl View for Operation {
    type V = OperationView;

    open spec fn view(&self) -> OperationView {
        OperationView {
            method: self.method@,
            summary: self.summary@,
            secured: self.secured,
            responses: response_views(self.responses@),
        }
    }
}

pub open spec fn response_views(v: Seq<(&'static str, Content)>) -> Seq<(Seq<char>, Content)> {
    Seq::new(v.len(), |i: int| (v[i].0@, v[i].1))
}

/// A path, and what can be done on it.
#[derive(Debug)]
pub struct Route {
    pub path: &'static str,
    pub operations: Vec<Operation>,
}

#[verifier::ext_equal]
pub struct RouteView {
    pub path: Seq<char>,
    pub operations: Seq<OperationView>,
}

impl View for Route {
    type V = RouteView;

    open spec fn view(&self) -> RouteView {
        RouteView { path: self.path@, operations: operation_views(self.operations@) }
    }
}

pub open spec fn operation_views(v: Seq<Operation>) -> Seq<OperationView> {
    Seq::new(v.len(), |i: int| v[i]@)
}

pub open spec fn route_views(v: Seq<Route>) -> Seq<RouteView> {
    Seq::new(v.len(), |i: int| v[i]@)
}

// ---- The routes ------------------------------------------------------------

pub open spec fn operation_view(
    method: Seq<char>,
    summary: Seq<char>,
    responses: Seq<(Seq<char>, Content)>,
) -> OperationView {
    OperationView { method, summary, secured: true, responses }
}

/// An operation that needs a bearer token and has one kind of response.
fn op1(method: &'static str, summary: &'static str, code: &'static str, content: Content) -> (r:
    Operation)
    ensures
        r@ == operation_view(method@, summary@, seq![(code@, content)]),
{
    let mut responses: Vec<(&'static str, Content)> = Vec::new();
    responses.push((code, content));
    assert(response_views(responses@) =~= seq![(code@, content)]);
    Operation { method, summary, secured: true, responses }
}

/// An operation that needs a bearer token and has two kinds of response, the second
/// with JSON.
fn op2(
    method: &'static str,
    summary: &'static str,
    code: &'static str,
    content: Content,
    other: &'static str,
) -> (r: Operation)
    ensures
        r@ == operation_view(method@, summary@, seq![(code@, content), (other@, Content::Json)]),
{
    let mut responses: Vec<(&'static str, Content)> = Vec::new();
    responses.push((code, content));
    responses.push((other, Content::Json));
    assert(response_views(responses@) =~= seq![(code@, content), (other@, Content::Json)]);
    Operation { method, summary, secured: true, responses }
}

/// An operation that is open to everyone.
fn public(op: Operation) -> (r: Operation)
    ensures
        r@ == (OperationView { secured: false, ..op@ }),
{
    Operation { secured: false, ..op }
}

fn route1(path: &'static str, a: Operation) -> (r: Route)
    ensures
        r@ == (RouteView { path: path@, operations: seq![a@] }),
{
    let mut operations: Vec<Operation> = Vec::new();
    operations.push(a);
    assert(operation_views(operations@) =~= seq![a@]);
    Route { path, operations }
}

fn route2(path: &'static str, a: Operation, b: Operation) -> (r: Route)
    ensures
        r@ == (RouteView { path: path@, operations: seq![a@, b@] }),
{
    let mut operations: Vec<Operation> = Vec::new();
    operations.push(a);
    operations.push(b);
    assert(operation_views(operations@) =~= seq![a@, b@]);
    Route { path, operations }
}

fn route3(path: &'static str, a: Operation, b: Operation, c: Operation) -> (r: Route)
    ensures
        r@ == (RouteView { path: path@, operations: seq![a@, b@, c@] }),
{
    let mut operations: Vec<Operation> = Vec::new();
    operations.push(a);
    operations.push(b);
    operations.push(c);
    assert(operation_views(operations@) =~= seq![a@, b@, c@]);
    Route { path, operations }
}

/// The server itself.
pub open spec fn server_routes() -> Seq<RouteView> {
    seq![
        RouteView {
            path: "/health"@,
            operations: seq![
                (OperationView { secured: false, ..operation_view("get"@, "Liveness"@, seq![("200"@, Content::Json)]) }),
            ],
        },
        RouteView {
            path: "/openapi.json"@,
            operations: seq![
                (OperationView { secured: false, ..operation_view("get"@, "This document"@, seq![("200"@, Content::Json)]) }),
            ],
        },
        RouteView {
            path: "/tinylord.js"@,
            operations: seq![
                (OperationView { secured: false, ..operation_view("get"@, "Browser client library"@, seq![("200"@, Content::Script)]) }),
            ],
        },
    ]
}

fn add_server_routes(v: &mut Vec<Route>)
    ensures
        route_views(final(v)@) == route_views(old(v)@) + server_routes(),
{
    v.push(
        route1(
            "/health",
            public(op1("get", "Liveness", "200", Content::Json)),
        ),
    );
    v.push(
        route1(
            "/openapi.json",
            public(op1("get", "This document", "200", Content::Json)),
        ),
    );
    v.push(
        route1(
            "/tinylord.js",
            public(op1("get", "Browser client library", "200", Content::Script)),
        ),
    );
    assert(route_views(v@) =~= route_views(old(v)@) + server_routes());
}

/// How a browser begins, renews, and ends a session. What a browser bears here is a
/// password or a cookie, and no bearer token.
pub open spec fn session_routes() -> Seq<RouteView> {
    seq![
        RouteView {
            path: "/v1/auth/register"@,
            operations: seq![
                (OperationView { secured: false, ..operation_view("post"@, "Register a browser user and sign in"@, seq![("200"@, Content::Json), ("403"@, Content::Json)]) }),
            ],
        },
        RouteView {
            path: "/v1/auth/login"@,
            operations: seq![
                (OperationView { secured: false, ..operation_view("post"@, "Sign in a browser user"@, seq![("200"@, Content::Json), ("401"@, Content::Json)]) }),
            ],
        },
        RouteView {
            path: "/v1/auth/refresh"@,
            operations: seq![
                (OperationView { secured: false, ..operation_view("post"@, "Renew a browser session"@, seq![("200"@, Content::Json), ("401"@, Content::Json)]) }),
            ],
        },
        RouteView {
            path: "/v1/auth/logout"@,
            operations: seq![
                (OperationView { secured: false, ..operation_view("post"@, "End a browser session"@, seq![("204"@, Content::Empty), ("401"@, Content::Json)]) }),
            ],
        },
    ]
}

fn add_session_routes(v: &mut Vec<Route>)
    ensures
        route_views(final(v)@) == route_views(old(v)@) + session_routes(),
{
    v.push(
        route1(
            "/v1/auth/register",
            public(op2("post", "Register a browser user and sign in", "200", Content::Json, "403")),
        ),
    );
    v.push(
        route1(
            "/v1/auth/login",
            public(op2("post", "Sign in a browser user", "200", Content::Json, "401")),
        ),
    );
    v.push(
        route1(
            "/v1/auth/refresh",
            public(op2("post", "Renew a browser session", "200", Content::Json, "401")),
        ),
    );
    v.push(
        route1(
            "/v1/auth/logout",
            public(op2("post", "End a browser session", "204", Content::Empty, "401")),
        ),
    );
    assert(route_views(v@) =~= route_views(old(v)@) + session_routes());
}

/// Who a request comes from.
pub open spec fn identity_routes() -> Seq<RouteView> {
    seq![
        RouteView {
            path: "/v1/auth/me"@,
            operations: seq![
                operation_view("get"@, "Who the bearer of the token is"@, seq![("200"@, Content::Json)]),
            ],
        },
    ]
}

fn add_identity_routes(v: &mut Vec<Route>)
    ensures
        route_views(final(v)@) == route_views(old(v)@) + identity_routes(),
{
    v.push(
        route1(
            "/v1/auth/me",
            op1("get", "Who the bearer of the token is", "200", Content::Json),
        ),
    );
    assert(route_views(v@) =~= route_views(old(v)@) + identity_routes());
}

/// Administration.
pub open spec fn admin_routes() -> Seq<RouteView> {
    seq![
        RouteView {
            path: "/v1/admin/databases"@,
            operations: seq![
                operation_view("post"@, "Create database"@, seq![("201"@, Content::Json), ("409"@, Content::Json)]),
                operation_view("get"@, "List databases"@, seq![("200"@, Content::Json)]),
            ],
        },
        RouteView {
            path: "/v1/admin/databases/{db}"@,
            operations: seq![
                operation_view("delete"@, "Delete database (irreversible)"@, seq![("204"@, Content::Empty)]),
            ],
        },
        RouteView {
            path: "/v1/admin/databases/{db}/snapshot"@,
            operations: seq![
                operation_view("post"@, "Consistent snapshot via VACUUM INTO"@, seq![("200"@, Content::Json)]),
            ],
        },
        RouteView {
            path: "/v1/admin/principals"@,
            operations: seq![
                operation_view("post"@, "Create principal (token shown once)"@, seq![("201"@, Content::Json)]),
                operation_view("get"@, "List principals with grants for an admin interface"@, seq![("200"@, Content::Json)]),
            ],
        },
        RouteView {
            path: "/v1/admin/principals/password"@,
            operations: seq![
                operation_view("post"@, "Reset browser-user password and revoke browser sessions"@, seq![("200"@, Content::Json), ("404"@, Content::Json)]),
            ],
        },
        RouteView {
            path: "/v1/admin/principals/{id}"@,
            operations: seq![
                operation_view("delete"@, "Disable principal"@, seq![("204"@, Content::Empty)]),
            ],
        },
        RouteView {
            path: "/v1/admin/grants"@,
            operations: seq![
                operation_view("post"@, "Upsert grant"@, seq![("200"@, Content::Json)]),
                operation_view("delete"@, "Remove grant"@, seq![("204"@, Content::Empty)]),
            ],
        },
        RouteView {
            path: "/v1/admin/auth/registration"@,
            operations: seq![
                operation_view("get"@, "Get public registration policy"@, seq![("200"@, Content::Json)]),
                operation_view("put"@, "Set public registration policy"@, seq![("200"@, Content::Json)]),
            ],
        },
    ]
}

fn add_admin_routes(v: &mut Vec<Route>)
    ensures
        route_views(final(v)@) == route_views(old(v)@) + admin_routes(),
{
    v.push(
        route2(
            "/v1/admin/databases",
            op2("post", "Create database", "201", Content::Json, "409"),
            op1("get", "List databases", "200", Content::Json),
        ),
    );
    v.push(
        route1(
            "/v1/admin/databases/{db}",
            op1("delete", "Delete database (irreversible)", "204", Content::Empty),
        ),
    );
    v.push(
        route1(
            "/v1/admin/databases/{db}/snapshot",
            op1("post", "Consistent snapshot via VACUUM INTO", "200", Content::Json),
        ),
    );
    v.push(
        route2(
            "/v1/admin/principals",
            op1("post", "Create principal (token shown once)", "201", Content::Json),
            op1("get", "List principals with grants for an admin interface", "200", Content::Json),
        ),
    );
    v.push(
        route1(
            "/v1/admin/principals/password",
            op2("post", "Reset browser-user password and revoke browser sessions", "200", Content::Json, "404"),
        ),
    );
    v.push(
        route1(
            "/v1/admin/principals/{id}",
            op1("delete", "Disable principal", "204", Content::Empty),
        ),
    );
    v.push(
        route2(
            "/v1/admin/grants",
            op1("post", "Upsert grant", "200", Content::Json),
            op1("delete", "Remove grant", "204", Content::Empty),
        ),
    );
    v.push(
        route2(
            "/v1/admin/auth/registration",
            op1("get", "Get public registration policy", "200", Content::Json),
            op1("put", "Set public registration policy", "200", Content::Json),
        ),
    );
    assert(route_views(v@) =~= route_views(old(v)@) + admin_routes());
}

/// Documents, queries, indexes, and changes.
pub open spec fn collection_routes() -> Seq<RouteView> {
    seq![
        RouteView {
            path: "/v1/db/{db}/collections/{coll}/documents"@,
            operations: seq![
                operation_view("post"@, "Create document"@, seq![("201"@, Content::Json)]),
            ],
        },
        RouteView {
            path: "/v1/db/{db}/collections/{coll}/documents/{id}"@,
            operations: seq![
                operation_view("get"@, "Get document"@, seq![("200"@, Content::Json), ("404"@, Content::Json)]),
                operation_view("put"@, "Replace/upsert document"@, seq![("200"@, Content::Json), ("201"@, Content::Json)]),
                operation_view("delete"@, "Delete document"@, seq![("204"@, Content::Empty), ("404"@, Content::Json)]),
            ],
        },
        RouteView {
            path: "/v1/db/{db}/collections/{coll}/query"@,
            operations: seq![
                operation_view("post"@, "Query documents"@, seq![("200"@, Content::Json)]),
            ],
        },
        RouteView {
            path: "/v1/db/{db}/collections/{coll}/count"@,
            operations: seq![
                operation_view("post"@, "Count documents"@, seq![("200"@, Content::Json)]),
            ],
        },
        RouteView {
            path: "/v1/db/{db}/collections/{coll}/indexes"@,
            operations: seq![
                operation_view("post"@, "Create index"@, seq![("201"@, Content::Json), ("409"@, Content::Json)]),
                operation_view("get"@, "List indexes"@, seq![("200"@, Content::Json)]),
            ],
        },
        RouteView {
            path: "/v1/db/{db}/collections/{coll}/indexes/{name}"@,
            operations: seq![
                operation_view("delete"@, "Drop index"@, seq![("204"@, Content::Empty), ("404"@, Content::Json)]),
            ],
        },
        RouteView {
            path: "/v1/db/{db}/collections/{coll}/subscribe"@,
            operations: seq![
                operation_view("get"@, "Subscribe to changes (SSE)"@, seq![("200"@, Content::Events)]),
            ],
        },
    ]
}

fn add_collection_routes(v: &mut Vec<Route>)
    ensures
        route_views(final(v)@) == route_views(old(v)@) + collection_routes(),
{
    v.push(
        route1(
            "/v1/db/{db}/collections/{coll}/documents",
            op1("post", "Create document", "201", Content::Json),
        ),
    );
    v.push(
        route3(
            "/v1/db/{db}/collections/{coll}/documents/{id}",
            op2("get", "Get document", "200", Content::Json, "404"),
            op2("put", "Replace/upsert document", "200", Content::Json, "201"),
            op2("delete", "Delete document", "204", Content::Empty, "404"),
        ),
    );
    v.push(
        route1(
            "/v1/db/{db}/collections/{coll}/query",
            op1("post", "Query documents", "200", Content::Json),
        ),
    );
    v.push(
        route1(
            "/v1/db/{db}/collections/{coll}/count",
            op1("post", "Count documents", "200", Content::Json),
        ),
    );
    v.push(
        route2(
            "/v1/db/{db}/collections/{coll}/indexes",
            op2("post", "Create index", "201", Content::Json, "409"),
            op1("get", "List indexes", "200", Content::Json),
        ),
    );
    v.push(
        route1(
            "/v1/db/{db}/collections/{coll}/indexes/{name}",
            op2("delete", "Drop index", "204", Content::Empty, "404"),
        ),
    );
    v.push(
        route1(
            "/v1/db/{db}/collections/{coll}/subscribe",
            op1("get", "Subscribe to changes (SSE)", "200", Content::Events),
        ),
    );
    assert(route_views(v@) =~= route_views(old(v)@) + collection_routes());
}

/// Channels.
pub open spec fn channel_routes() -> Seq<RouteView> {
    seq![
        RouteView {
            path: "/v1/db/{db}/channels/{channel}/publish"@,
            operations: seq![
                operation_view("post"@, "Publish an ephemeral channel event"@, seq![("200"@, Content::Json), ("413"@, Content::Json)]),
            ],
        },
        RouteView {
            path: "/v1/db/{db}/channels/{channel}/subscribe"@,
            operations: seq![
                operation_view("get"@, "Subscribe to a channel's ephemeral events and presence (SSE)"@, seq![("200"@, Content::Events)]),
            ],
        },
        RouteView {
            path: "/v1/db/{db}/channels/{channel}/presence"@,
            operations: seq![
                operation_view("get"@, "Current presence roster for a channel"@, seq![("200"@, Content::Json)]),
            ],
        },
    ]
}

fn add_channel_routes(v: &mut Vec<Route>)
    ensures
        route_views(final(v)@) == route_views(old(v)@) + channel_routes(),
{
    v.push(
        route1(
            "/v1/db/{db}/channels/{channel}/publish",
            op2("post", "Publish an ephemeral channel event", "200", Content::Json, "413"),
        ),
    );
    v.push(
        route1(
            "/v1/db/{db}/channels/{channel}/subscribe",
            op1("get", "Subscribe to a channel's ephemeral events and presence (SSE)", "200", Content::Events),
        ),
    );
    v.push(
        route1(
            "/v1/db/{db}/channels/{channel}/presence",
            op1("get", "Current presence roster for a channel", "200", Content::Json),
        ),
    );
    assert(route_views(v@) =~= route_views(old(v)@) + channel_routes());
}

/// The routes that are open to everyone.
pub open spec fn open_routes() -> Seq<RouteView> {
    server_routes() + session_routes()
}

/// All the routes that the document describes.
pub open spec fn all_routes() -> Seq<RouteView> {
    open_routes() + identity_routes() + admin_routes() + collection_routes() + channel_routes()
}

/// All the routes that the document describes.
pub fn routes() -> (r: Vec<Route>)
    ensures
        route_views(r@) == all_routes(),
{
    let mut v: Vec<Route> = Vec::new();
    assert(route_views(v@) =~= Seq::empty());
    add_server_routes(&mut v);
    add_session_routes(&mut v);
    add_identity_routes(&mut v);
    add_admin_routes(&mut v);
    add_collection_routes(&mut v);
    add_channel_routes(&mut v);
    assert(route_views(v@) =~= all_routes());
    v
}

/// An operation needs a bearer token unless it is on the server itself or a browser
/// begins, renews, or ends a session by it.
pub proof fn law_operations_are_secured(i: int, j: int)
    requires
        0 <= i < all_routes().len(),
        0 <= j < all_routes()[i].operations.len(),
    ensures
        all_routes()[i].operations[j].secured <==> i >= open_routes().len(),
{
}

// ---- The document ----------------------------------------------------------

/// A response as the document describes it.
pub open spec fn response_json(content: Content) -> JsonView {
    match content {
        Content::Empty => JsonView::Object(Map::empty()),
        Content::Json => JsonView::Object(
            map![
                "content"@ => JsonView::Object(
                    map!["application/json"@ => JsonView::Object(Map::empty())],
                ),
            ],
        ),
        Content::Events => JsonView::Object(
            map![
                "content"@ => JsonView::Object(
                    map!["text/event-stream"@ => JsonView::Object(Map::empty())],
                ),
            ],
        ),
        Content::Script => JsonView::Object(
            map![
                "content"@ => JsonView::Object(
                    map!["text/javascript"@ => JsonView::Object(Map::empty())],
                ),
            ],
        ),
    }
}

pub open spec fn responses_map(v: Seq<(Seq<char>, Content)>) -> Map<Seq<char>, JsonView>
    decreases v.len(),
{
    if v.len() == 0 {
        Map::empty()
    } else {
        responses_map(v.drop_last()).insert(v.last().0, response_json(v.last().1))
    }
}

/// An operation as the document describes it.
pub open spec fn operation_json(op: OperationView) -> JsonView {
    JsonView::Object(
        map![
            "summary"@ => JsonView::Text(op.summary),
            "security"@ => JsonView::Array(
                if op.secured {
                    seq![JsonView::Object(map!["BearerAuth"@ => JsonView::Array(Seq::empty())])]
                } else {
                    Seq::empty()
                },
            ),
            "responses"@ => JsonView::Object(responses_map(op.responses)),
        ],
    )
}

pub open spec fn operations_map(v: Seq<OperationView>) -> Map<Seq<char>, JsonView>
    decreases v.len(),
{
    if v.len() == 0 {
        Map::empty()
    } else {
        operations_map(v.drop_last()).insert(v.last().method, operation_json(v.last()))
    }
}

pub open spec fn paths_map(v: Seq<RouteView>) -> Map<Seq<char>, JsonView>
    decreases v.len(),
{
    if v.len() == 0 {
        Map::empty()
    } else {
        paths_map(v.drop_last()).insert(
            v.last().path,
            JsonView::Object(operations_map(v.last().operations)),
        )
    }
}

/// The paths that the document describes are those of the routes, and no others.
pub proof fn law_described_paths_are_the_routes(v: Seq<RouteView>, path: Seq<char>)
    ensures
        paths_map(v).contains_key(path) <==> exists|i: int|
            0 <= i < v.len() && (#[trigger] v[i]).path == path,
    decreases v.len(),
{
    if v.len() > 0 {
        let front = v.drop_last();
        law_described_paths_are_the_routes(front, path);
        if v.last().path == path {
            assert(v[v.len() - 1].path == path);
        }
        if exists|i: int| 0 <= i < front.len() && (#[trigger] front[i]).path == path {
            let i = choose|i: int| 0 <= i < front.len() && (#[trigger] front[i]).path == path;
            assert(v[i].path == path);
        }
        if exists|i: int| 0 <= i < v.len() && (#[trigger] v[i]).path == path {
            let i = choose|i: int| 0 <= i < v.len() && (#[trigger] v[i]).path == path;
            if i < front.len() {
                assert(front[i].path == path);
            }
        }
    }
}

/// The whole document.
pub open spec fn openapi_view() -> JsonView {
    JsonView::Object(
        map![
            "openapi"@ => JsonView::Text("3.1.0"@),
            "info"@ => JsonView::Object(
                map![
                    "title"@ => JsonView::Text("tinylord"@),
                    "version"@ => JsonView::Text("0.1.0"@),
                    "description"@ => JsonView::Text(
                        "A tiny schemaless realtime document datastore."@,
                    ),
                ],
            ),
            "components"@ => JsonView::Object(
                map![
                    "securitySchemes"@ => JsonView::Object(
                        map![
                            "BearerAuth"@ => JsonView::Object(
                                map![
                                    "type"@ => JsonView::Text("http"@),
                                    "scheme"@ => JsonView::Text("bearer"@),
                                ],
                            ),
                        ],
                    ),
                ],
            ),
            "paths"@ => JsonView::Object(paths_map(all_routes())),
        ],
    )
}

/// An object with one entry.
fn single(key: &str, value: Json) -> (r: Json)
    ensures
        r@ == JsonView::Object(map![key@ => value@]),
{
    let mut e: Vec<(String, Json)> = Vec::new();
    put(&mut e, key, value);
    Json::Object(e)
}

fn empty_object() -> (r: Json)
    ensures
        r@ == JsonView::Object(Map::empty()),
{
    let e: Vec<(String, Json)> = Vec::new();
    assert(object_view(e@) =~= Map::empty());
    Json::Object(e)
}

fn describe_response(content: Content) -> (r: Json)
    ensures
        r@ == response_json(content),
{
    match content {
        Content::Empty => empty_object(),
        Content::Json => single("content", single("application/json", empty_object())),
        Content::Events => single("content", single("text/event-stream", empty_object())),
        Content::Script => single("content", single("text/javascript", empty_object())),
    }
}

fn describe_operation(op: &Operation) -> (r: Json)
    ensures
        r@ == operation_json(op@),
{
    let ghost all = response_views(op.responses@);
    let mut responses: Vec<(String, Json)> = Vec::new();
    let mut i: usize = 0;
    assert(all.take(0) =~= Seq::empty());
    while i < op.responses.len()
        invariant
            all == response_views(op.responses@),
            i <= op.responses@.len(),
            object_view(responses@) == responses_map(all.take(i as int)),
        decreases op.responses@.len() - i,
    {
        put(&mut responses, op.responses[i].0, describe_response(op.responses[i].1));
        assert(all.take(i + 1).drop_last() =~= all.take(i as int));
        assert(all.take(i + 1).last() == all[i as int]);
        i = i + 1;
    }
    assert(all.take(i as int) =~= all);
    let mut security: Vec<Json> = Vec::new();
    if op.secured {
        let none: Vec<Json> = Vec::new();
        let scopes = Json::Array(none);
        assert(scopes@->Array_0 =~= Seq::empty());
        security.push(single("BearerAuth", scopes));
    }
    let needed = Json::Array(security);
    assert(needed@->Array_0 =~= (if op.secured {
        seq![JsonView::Object(map!["BearerAuth"@ => JsonView::Array(Seq::empty())])]
    } else {
        Seq::empty()
    }));
    let mut e: Vec<(String, Json)> = Vec::new();
    put(&mut e, "summary", json_text(op.summary));
    put(&mut e, "security", needed);
    put(&mut e, "responses", Json::Object(responses));
    Json::Object(e)
}

fn describe_route(route: &Route) -> (r: Json)
    ensures
        r@ == JsonView::Object(operations_map(operation_views(route.operations@))),
{
    let ghost all = operation_views(route.operations@);
    let mut e: Vec<(String, Json)> = Vec::new();
    let mut i: usize = 0;
    assert(all.take(0) =~= Seq::empty());
    while i < route.operations.len()
        invariant
            all == operation_views(route.operations@),
            i <= route.operations@.len(),
            object_view(e@) == operations_map(all.take(i as int)),
        decreases route.operations@.len() - i,
    {
        put(&mut e, route.operations[i].method, describe_operation(&route.operations[i]));
        assert(all.take(i + 1).drop_last() =~= all.take(i as int));
        assert(all.take(i + 1).last() == all[i as int]);
        i = i + 1;
    }
    assert(all.take(i as int) =~= all);
    Json::Object(e)
}

/// The OpenAPI document.
pub fn openapi_doc() -> (r: Json)
    ensures
        r@ == openapi_view(),
{
    let routes = routes();
    let ghost all = route_views(routes@);
    let mut paths: Vec<(String, Json)> = Vec::new();
    let mut i: usize = 0;
    assert(all.take(0) =~= Seq::empty());
    while i < routes.len()
        invariant
            all == route_views(routes@),
            i <= routes@.len(),
            object_view(paths@) == paths_map(all.take(i as int)),
        decreases routes@.len() - i,
    {
        put(&mut paths, routes[i].path, describe_route(&routes[i]));
        assert(all.take(i + 1).drop_last() =~= all.take(i as int));
        assert(all.take(i + 1).last() == all[i as int]);
        i = i + 1;
    }
    assert(all.take(i as int) =~= all);

    let mut info: Vec<(String, Json)> = Vec::new();
    put(&mut info, "title", json_text("tinylord"));
    put(&mut info, "version", json_text("0.1.0"));
    put(&mut info, "description", json_text("A tiny schemaless realtime document datastore."));

    let mut scheme: Vec<(String, Json)> = Vec::new();
    put(&mut scheme, "type", json_text("http"));
    put(&mut scheme, "scheme", json_text("bearer"));

    let mut doc: Vec<(String, Json)> = Vec::new();
    put(&mut doc, "openapi", json_text("3.1.0"));
    put(&mut doc, "info", Json::Object(info));
    put(
        &mut doc,
        "components",
        single("securitySchemes", single("BearerAuth", Json::Object(scheme))),
    );
    put(&mut doc, "paths", Json::Object(paths));
    Json::Object(doc)
}

// ---- Other paths -----------------------------------------------------------

/// One path lies at or under the other, where both end in a slash.
pub open spec fn overlap(a: Seq<char>, b: Seq<char>) -> bool {
    starts(a, b) || starts(b, a)
}

/// Every route lies under `/v1/`, but for three on the server itself.
proof fn lemma_where_routes_lie(i: int)
    requires
        0 <= i < all_routes().len(),
    ensures
        ({
            let q = all_routes()[i].path;
            starts(q, "/v1/"@) || q == "/health"@ || q == "/openapi.json"@ || q == "/tinylord.js"@
        }),
{
    reveal_strlit("/v1/");
    reveal_strlit("/v1/auth/register");
    reveal_strlit("/v1/auth/login");
    reveal_strlit("/v1/auth/refresh");
    reveal_strlit("/v1/auth/logout");
    reveal_strlit("/v1/auth/me");
    reveal_strlit("/v1/admin/databases");
    reveal_strlit("/v1/admin/databases/{db}");
    reveal_strlit("/v1/admin/databases/{db}/snapshot");
    reveal_strlit("/v1/admin/principals");
    reveal_strlit("/v1/admin/principals/password");
    reveal_strlit("/v1/admin/principals/{id}");
    reveal_strlit("/v1/admin/grants");
    reveal_strlit("/v1/admin/auth/registration");
    reveal_strlit("/v1/db/{db}/collections/{coll}/documents");
    reveal_strlit("/v1/db/{db}/collections/{coll}/documents/{id}");
    reveal_strlit("/v1/db/{db}/collections/{coll}/query");
    reveal_strlit("/v1/db/{db}/collections/{coll}/count");
    reveal_strlit("/v1/db/{db}/collections/{coll}/indexes");
    reveal_strlit("/v1/db/{db}/collections/{coll}/indexes/{name}");
    reveal_strlit("/v1/db/{db}/collections/{coll}/subscribe");
    reveal_strlit("/v1/db/{db}/channels/{channel}/publish");
    reveal_strlit("/v1/db/{db}/channels/{channel}/subscribe");
    reveal_strlit("/v1/db/{db}/channels/{channel}/presence");
    let q = all_routes()[i].path;
    if i >= server_routes().len() {
        assert(q.take(4) =~= "/v1/"@);
    }
}

/// The page for operators overlaps no route: whatever path it is allowed to have, no
/// route lies at or under it, and it lies at or under none.
pub proof fn law_admin_path_overlaps_no_route(p: Seq<char>, i: int)
    requires
        slash_path(p),
        !taken_path(p),
        0 <= i < all_routes().len(),
    ensures
        !overlap(p, all_routes()[i].path + "/"@),
{
    lemma_where_routes_lie(i);
    reveal_strlit("/v1/");
    reveal_strlit("/health");
    reveal_strlit("/health/");
    reveal_strlit("/openapi.json");
    reveal_strlit("/tinylord.js");
    reveal_strlit("/");
    let q = all_routes()[i].path;
    let t = q + "/"@;
    if overlap(p, t) {
        let n = if p.len() < t.len() {
            p.len() as int
        } else {
            t.len() as int
        };
        assert(p.take(n) == t.take(n));
        assert(forall|k: int| 0 <= k < n ==> #[trigger] p[k] == p.take(n)[k]);
        assert(forall|k: int| 0 <= k < n ==> #[trigger] t[k] == t.take(n)[k]);
        assert(p[1] == t[1] && p[2] == t[2]);
        if starts(q, "/v1/"@) {
            assert(q[0] == q.take(4)[0] && q[1] == q.take(4)[1] && q[2] == q.take(4)[2] && q[3]
                == q.take(4)[3]);
            assert(p[2] == '1');
            assert(p.last() == '/');
            assert(p[3] == t[3]);
            assert(p.take(4) =~= "/v1/"@);
        } else if q == "/health"@ {
            assert(p.last() == p[p.len() - 1]);
            if p.len() < 8 {
                assert(t[p.len() - 1] == '/');
            }
            assert(p.take(8) =~= "/health/"@);
        } else if q == "/openapi.json"@ {
            assert(p.last() == p[p.len() - 1]);
            if p.len() < 14 {
                assert(t[p.len() - 1] == '/');
            }
            assert(p[8] == '.');
        } else {
            assert(p.last() == p[p.len() - 1]);
            if p.len() < 13 {
                assert(t[p.len() - 1] == '/');
            }
            assert(p[9] == '.');
        }
    }
}

} // verus!
