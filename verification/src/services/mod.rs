//! The request handlers' decisions. A handler that needs the link store is
//! split in two: a first step that either answers at once or asks for the
//! store operation, and a second step that turns the operation's outcome into
//! the reply.
pub mod delete;
pub mod get;
pub mod put;

use vstd::prelude::*;
use vstd::string::*;
use crate::config::Config;
use crate::header::{header_value_accepts, is_valid_header_value};
use crate::reply::{Reply, ReplyView};
use crate::types::opt_text;

verus! {

/// The connection a store operation runs on.
#[derive(Clone, Copy, Debug, PartialEq, Eq, Structural)]
pub enum Connection {
    /// The read-only connection.
    Reader,
    /// The shared connection that writes.
    Writer,
}

/// Delete `shortlink`; `allow_capital_letters` says whether short links may
/// hold capital letters.
pub struct DeleteRequest {
    pub shortlink: String,
    pub allow_capital_letters: bool,
}

/// Edit a link as the request body `req` asks, with the server's
/// configuration and its channel for counting hits.
pub struct EditRequest {
    pub req: String,
}

/// List the links, with the query string of the request.
pub struct ListRequest {
    pub query: String,
}

/// Look up the long link of `shortlink`, counting the hit.
pub struct LookupRequest {
    pub shortlink: String,
}

impl View for DeleteRequest {
    type V = (Seq<char>, bool);

    open spec fn view(&self) -> (Seq<char>, bool) {
        (self.shortlink@, self.allow_capital_letters)
    }
}

impl View for EditRequest {
    type V = Seq<char>;

    open spec fn view(&self) -> Seq<char> {
        self.req@
    }
}

impl View for ListRequest {
    type V = Seq<char>;

    open spec fn view(&self) -> Seq<char> {
        self.query@
    }
}

impl View for LookupRequest {
    type V = Seq<char>;

    open spec fn view(&self) -> Seq<char> {
        self.shortlink@
    }
}

impl DeleteRequest {
    /// A deletion writes.
    pub fn connection(&self) -> (c: Connection)
        ensures
            c == Connection::Writer,
    {
        Connection::Writer
    }
}

impl EditRequest {
    /// An edit writes.
    pub fn connection(&self) -> (c: Connection)
        ensures
            c == Connection::Writer,
    {
        Connection::Writer
    }
}

impl ListRequest {
    /// A listing only reads.
    pub fn connection(&self) -> (c: Connection)
        ensures
            c == Connection::Reader,
    {
        Connection::Reader
    }
}

impl LookupRequest {
    /// A lookup reads; the hit it counts is sent on the hit channel.
    pub fn connection(&self) -> (c: Connection)
        ensures
            c == Connection::Reader,
    {
        Connection::Reader
    }
}

/// The first step of a handler that needs the link store.
pub enum Plan<Q> {
    /// Answer with this reply; the store is not touched.
    Respond(Reply),
    /// Run this one store operation, then hand its outcome to the second step.
    Consult(Q),
}

/// A `Plan` as plain values.
pub enum PlanView<V> {
    Respond(ReplyView),
    Consult(V),
}

impl<Q: View> View for Plan<Q> {
    type V = PlanView<Q::V>;

    open spec fn view(&self) -> PlanView<Q::V> {
        match self {
            Plan::Respond(r) => PlanView::Respond(r@),
            Plan::Consult(q) => PlanView::Consult(q@),
        }
    }
}

/// An HTTP method that a route answers.
#[derive(Clone, Copy, Debug, PartialEq, Eq, Structural)]
pub enum Method {
    Get,
    Post,
    Put,
    Delete,
}

/// The handler that a route leads to.
#[derive(Clone, Copy, Debug, PartialEq, Eq, Structural)]
pub enum Handler {
    GetAll,
    SiteUrl,
    Version,
    WhoAmI,
    GetConfig,
    AddLinks,
    Expand,
    Login,
    EditLink,
    Logout,
    DeleteLink,
    LinkHandler,
}

/// A route: requests with this method on this path go to this handler.
pub struct Route {
    pub method: Method,
    pub path: String,
    pub handler: Handler,
}

/// Static files from `directory`; with `index_on_directories`, a request
/// for a directory is answered with its `index.html`.
pub struct StaticDir {
    pub directory: String,
    pub index_on_directories: bool,
}

/// Static files served under `path`.
pub struct StaticMount {
    pub path: String,
    pub files: StaticDir,
}

/// What answers the requests that no route matches.
pub enum Frontend {
    /// The not-found page.
    Disabled,
    /// Files from `landing`; with `missing_files_not_found`, a file missing
    /// from it is answered with the not-found page. With `admin`, the bundled
    /// frontend also stays reachable under its own path.
    Serve { admin: Option<StaticMount>, landing: StaticDir, missing_files_not_found: bool },
}

/// The settings of the login session cookie.
pub struct SessionPolicy {
    pub same_site_strict: bool,
    pub secure: bool,
    /// A session ends after this many days without a request.
    pub inactivity_days: i64,
    /// Sessions are kept in a store in memory that starts empty with each
    /// router, so no session outlives a restart.
    pub fresh_in_memory_store: bool,
}

/// How the router is assembled.
pub struct RouterPlan {
    pub routes: Vec<Route>,
    pub frontend: Frontend,
    pub session: SessionPolicy,
    /// A `Cache-Control` value to add to every reply that sets none.
    pub cache_control: Option<String>,
    /// A trailing slash is removed from the path before the request is routed.
    pub trim_trailing_slash: bool,
}

/// A route as plain values.
pub open spec fn route_view(r: Route) -> (Method, Seq<char>, Handler) {
    (r.method, r.path@, r.handler)
}

/// The route table of the API.
pub open spec fn route_table() -> Seq<(Method, Seq<char>, Handler)> {
    seq![
        (Method::Get, "/api/all"@, Handler::GetAll),
        (Method::Get, "/api/siteurl"@, Handler::SiteUrl),
        (Method::Get, "/api/version"@, Handler::Version),
        (Method::Get, "/api/whoami"@, Handler::WhoAmI),
        (Method::Get, "/api/getconfig"@, Handler::GetConfig),
        (Method::Post, "/api/new"@, Handler::AddLinks),
        (Method::Post, "/api/expand"@, Handler::Expand),
        (Method::Post, "/api/login"@, Handler::Login),
        (Method::Put, "/api/edit"@, Handler::EditLink),
        (Method::Delete, "/api/logout"@, Handler::Logout),
        (Method::Delete, "/api/del/{shortlink}"@, Handler::DeleteLink),
        (Method::Get, "/{shortlink}"@, Handler::LinkHandler),
    ]
}

/// Among `routes`, requests with `method` on `path` are registered, and every
/// route registered for them leads to `handler`.
pub open spec fn serves(routes: Seq<Route>, method: Method, path: Seq<char>, handler: Handler) -> bool {
    &&& exists|i: int| 0 <= i < routes.len() && routes[i].method == method && routes[i].path@ == path
    &&& forall|i: int|
        0 <= i < routes.len() && routes[i].method == method && #[trigger] routes[i].path@ == path
            ==> routes[i].handler == handler
}

/// The API's routes: each method and path leads to the handler registered
/// for it, and to no other.
pub open spec fn serves_api(routes: Seq<Route>) -> bool {
    &&& routes.len() == 12
    &&& serves(routes, Method::Get, "/api/all"@, Handler::GetAll)
    &&& serves(routes, Method::Get, "/api/siteurl"@, Handler::SiteUrl)
    &&& serves(routes, Method::Get, "/api/version"@, Handler::Version)
    &&& serves(routes, Method::Get, "/api/whoami"@, Handler::WhoAmI)
    &&& serves(routes, Method::Get, "/api/getconfig"@, Handler::GetConfig)
    &&& serves(routes, Method::Post, "/api/new"@, Handler::AddLinks)
    &&& serves(routes, Method::Post, "/api/expand"@, Handler::Expand)
    &&& serves(routes, Method::Post, "/api/login"@, Handler::Login)
    &&& serves(routes, Method::Put, "/api/edit"@, Handler::EditLink)
    &&& serves(routes, Method::Delete, "/api/logout"@, Handler::Logout)
    &&& serves(routes, Method::Delete, "/api/del/{shortlink}"@, Handler::DeleteLink)
    &&& serves(routes, Method::Get, "/{shortlink}"@, Handler::LinkHandler)
}

/// No two entries of the route table share a method and a path.
proof fn lemma_route_table_keys_distinct()
    ensures
        forall|i: int, j: int|
            #![trigger route_table()[i], route_table()[j]]
            0 <= i < route_table().len() && 0 <= j < route_table().len() && i != j
                && route_table()[i].0 == route_table()[j].0 ==> route_table()[i].1 != route_table()[j].1,
{
    reveal_strlit("/api/all");
    reveal_strlit("/api/siteurl");
    reveal_strlit("/api/version");
    reveal_strlit("/api/whoami");
    reveal_strlit("/api/getconfig");
    reveal_strlit("/api/new");
    reveal_strlit("/api/expand");
    reveal_strlit("/api/login");
    reveal_strlit("/api/edit");
    reveal_strlit("/api/logout");
    reveal_strlit("/api/del/{shortlink}");
    reveal_strlit("/{shortlink}");
    let t = route_table();
    assert("/api/siteurl"@[5] != "/api/version"@[5]);
    assert("/api/siteurl"@[1] != "/{shortlink}"@[1]);
    assert("/api/version"@[1] != "/{shortlink}"@[1]);
    assert(t.len() == 12);
    assert(t[0] == (Method::Get, "/api/all"@, Handler::GetAll));
    assert(t[1] == (Method::Get, "/api/siteurl"@, Handler::SiteUrl));
    assert(t[2] == (Method::Get, "/api/version"@, Handler::Version));
    assert(t[3] == (Method::Get, "/api/whoami"@, Handler::WhoAmI));
    assert(t[4] == (Method::Get, "/api/getconfig"@, Handler::GetConfig));
    assert(t[5] == (Method::Post, "/api/new"@, Handler::AddLinks));
    assert(t[6] == (Method::Post, "/api/expand"@, Handler::Expand));
    assert(t[7] == (Method::Post, "/api/login"@, Handler::Login));
    assert(t[8] == (Method::Put, "/api/edit"@, Handler::EditLink));
    assert(t[9] == (Method::Delete, "/api/logout"@, Handler::Logout));
    assert(t[10] == (Method::Delete, "/api/del/{shortlink}"@, Handler::DeleteLink));
    assert(t[11] == (Method::Get, "/{shortlink}"@, Handler::LinkHandler));
    assert("/api/all"@.len() == 8);
    assert("/api/siteurl"@.len() == 12);
    assert("/api/version"@.len() == 12);
    assert("/api/whoami"@.len() == 11);
    assert("/api/getconfig"@.len() == 14);
    assert("/api/new"@.len() == 8);
    assert("/api/expand"@.len() == 11);
    assert("/api/login"@.len() == 10);
    assert("/api/edit"@.len() == 9);
    assert("/api/logout"@.len() == 11);
    assert("/api/del/{shortlink}"@.len() == 20);
    assert("/{shortlink}"@.len() == 12);
    assert forall|i: int, j: int|
        #![trigger t[i], t[j]]
        0 <= i < t.len() && 0 <= j < t.len() && i != j && t[i].0 == t[j].0 implies t[i].1 != t[j].1 by {
        assert(i == 0 || i == 1 || i == 2 || i == 3 || i == 4 || i == 5 || i == 6 || i == 7 || i == 8
            || i == 9 || i == 10 || i == 11);
        assert(j == 0 || j == 1 || j == 2 || j == 3 || j == 4 || j == 5 || j == 6 || j == 7 || j == 8
            || j == 9 || j == 10 || j == 11);
    }
}

/// The entry `k` of the route table is served by routes that follow the
/// table, given that no other entry shares its method and path.
proof fn lemma_serves_entry(routes: Seq<Route>, k: int)
    requires
        routes.len() == route_table().len(),
        forall|i: int| 0 <= i < routes.len() ==> route_view(#[trigger] routes[i]) == route_table()[i],
        0 <= k < routes.len(),
        forall|i: int, j: int|
            #![trigger route_table()[i], route_table()[j]]
            0 <= i < route_table().len() && 0 <= j < route_table().len() && i != j
                && route_table()[i].0 == route_table()[j].0 ==> route_table()[i].1 != route_table()[j].1,
    ensures
        serves(routes, route_table()[k].0, route_table()[k].1, route_table()[k].2),
{
    assert(route_view(routes[k]) == route_table()[k]);
    assert forall|i: int|
        0 <= i < routes.len() && routes[i].method == route_table()[k].0
            && #[trigger] routes[i].path@ == route_table()[k].1 implies routes[i].handler
        == route_table()[k].2 by {
        assert(route_view(routes[i]) == route_table()[i]);
    }
}

/// Routes that follow the route table lead each method and path of the API
/// to its handler.
pub proof fn lemma_route_table_serves_api(routes: Seq<Route>)
    requires
        routes.map_values(|x: Route| route_view(x)) == route_table(),
    ensures
        serves_api(routes),
{
    let t = route_table();
    assert(routes.len() == 12) by {
        assert(routes.map_values(|x: Route| route_view(x)).len() == t.len());
    }
    assert forall|i: int| 0 <= i < routes.len() implies route_view(#[trigger] routes[i]) == t[i] by {
        assert(routes.map_values(|x: Route| route_view(x))[i] == route_view(routes[i]));
    }
    lemma_route_table_keys_distinct();
    lemma_serves_entry(routes, 0);
    lemma_serves_entry(routes, 1);
    lemma_serves_entry(routes, 2);
    lemma_serves_entry(routes, 3);
    lemma_serves_entry(routes, 4);
    lemma_serves_entry(routes, 5);
    lemma_serves_entry(routes, 6);
    lemma_serves_entry(routes, 7);
    lemma_serves_entry(routes, 8);
    lemma_serves_entry(routes, 9);
    lemma_serves_entry(routes, 10);
    lemma_serves_entry(routes, 11);
}

/// The directory of the bundled frontend.
pub open spec fn bundled_frontend() -> Seq<char> {
    "./frontend"@
}

/// A `StaticDir` as plain values.
pub open spec fn dir_view(d: StaticDir) -> (Seq<char>, bool) {
    (d.directory@, d.index_on_directories)
}

/// A `StaticMount` as plain values.
pub open spec fn mount_view(m: Option<StaticMount>) -> Option<(Seq<char>, (Seq<char>, bool))> {
    match m {
        Some(m) => Some((m.path@, dir_view(m.files))),
        None => None,
    }
}

/// The frontend is served unless it is disabled. A custom landing directory
/// replaces the bundled frontend at the root, and the bundled frontend then
/// moves to `/admin/manage`. Directories are answered with their
/// `index.html`, and files missing from the landing directory with the
/// not-found page.
pub open spec fn frontend_matches(f: Frontend, conf: Config) -> bool {
    if conf.disable_frontend {
        f is Disabled
    } else {
        match f {
            Frontend::Serve { admin, landing, missing_files_not_found } => {
                &&& mount_view(admin) == match conf.custom_landing_directory {
                    Some(_) => Some(("/admin/manage"@, (bundled_frontend(), true))),
                    None => None::<(Seq<char>, (Seq<char>, bool))>,
                }
                &&& dir_view(landing) == match conf.custom_landing_directory {
                    Some(d) => (d@, true),
                    None => (bundled_frontend(), true),
                }
                &&& missing_files_not_found
            },
            Frontend::Disabled => false,
        }
    }
}

/// The `Cache-Control` value to add: the configured one, when the header
/// can carry it.
pub open spec fn cache_control_of(conf: Config) -> Option<Seq<char>> {
    match conf.cache_control_header {
        Some(h) => if is_valid_header_value(h@) {
            Some(h@)
        } else {
            None
        },
        None => None,
    }
}

/// Builds the route table.
fn routes() -> (r: Vec<Route>)
    ensures
        r@.map_values(|x: Route| route_view(x)) == route_table(),
{
    let mut r: Vec<Route> = Vec::new();
    r.push(Route { method: Method::Get, path: String::from_str("/api/all"), handler: Handler::GetAll });
    r.push(Route { method: Method::Get, path: String::from_str("/api/siteurl"), handler: Handler::SiteUrl });
    r.push(Route { method: Method::Get, path: String::from_str("/api/version"), handler: Handler::Version });
    r.push(Route { method: Method::Get, path: String::from_str("/api/whoami"), handler: Handler::WhoAmI });
    r.push(Route { method: Method::Get, path: String::from_str("/api/getconfig"), handler: Handler::GetConfig });
    r.push(Route { method: Method::Post, path: String::from_str("/api/new"), handler: Handler::AddLinks });
    r.push(Route { method: Method::Post, path: String::from_str("/api/expand"), handler: Handler::Expand });
    r.push(Route { method: Method::Post, path: String::from_str("/api/login"), handler: Handler::Login });
    r.push(Route { method: Method::Put, path: String::from_str("/api/edit"), handler: Handler::EditLink });
    r.push(Route { method: Method::Delete, path: String::from_str("/api/logout"), handler: Handler::Logout });
    r.push(Route {
        method: Method::Delete,
        path: String::from_str("/api/del/{shortlink}"),
        handler: Handler::DeleteLink,
    });
    r.push(Route { method: Method::Get, path: String::from_str("/{shortlink}"), handler: Handler::LinkHandler });
    assert(r@.map_values(|x: Route| route_view(x)) =~= route_table());
    r
}

/// Decides how the router is assembled from the configuration: the route
/// table, what answers unmatched paths, the session cookie, the
/// `Cache-Control` layer, and the trimming of trailing slashes.
pub fn build_router(conf: &Config) -> (p: RouterPlan)
    ensures
        p.routes@.map_values(|x: Route| route_view(x)) == route_table(),
        serves_api(p.routes@),
        frontend_matches(p.frontend, *conf),
        p.session.same_site_strict,
        !p.session.secure,
        p.session.inactivity_days == 7,
        p.session.fresh_in_memory_store,
        p.trim_trailing_slash,
        opt_text(p.cache_control) == cache_control_of(*conf),
{
    let frontend = if !conf.disable_frontend {
        let admin = match &conf.custom_landing_directory {
            Some(_) => Some(StaticMount {
                path: String::from_str("/admin/manage"),
                files: StaticDir { directory: String::from_str("./frontend"), index_on_directories: true },
            }),
            None => None,
        };
        let landing = match &conf.custom_landing_directory {
            Some(d) => StaticDir { directory: d.clone(), index_on_directories: true },
            None => StaticDir { directory: String::from_str("./frontend"), index_on_directories: true },
        };
        Frontend::Serve { admin, landing, missing_files_not_found: true }
    } else {
        Frontend::Disabled
    };
    let cache_control = match &conf.cache_control_header {
        Some(h) => {
            if header_value_accepts(h.as_str()) {
                Some(h.clone())
            } else {
                None
            }
        },
        None => None,
    };
    let routes = routes();
    proof {
        lemma_route_table_serves_api(routes@);
    }
    RouterPlan {
        routes,
        frontend,
        session: SessionPolicy {
            same_site_strict: true,
            secure: false,
            inactivity_days: 7,
            fresh_in_memory_store: true,
        },
        cache_control,
        trim_trailing_slash: true,
    }
}

} // verus!
