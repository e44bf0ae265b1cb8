use vstd::prelude::*;
use crate::json::{encode_object, object_of};
use crate::page::{page_of, render, HOSTNAME_KEY, LOCAL_IP_KEY};
use crate::snapshot::{collect_entries, pairs_view, set_entry, EntryView, Snapshot};

verus! {

/// Status of a request that was served.
pub const STATUS_OK: u16 = 200;

/// Status of a request whose method the path does not serve.
pub const STATUS_METHOD_NOT_ALLOWED: u16 = 405;

/// Status of a request for a path that no handler serves.
pub const STATUS_NOT_FOUND: u16 = 404;

/// Status of a request that could not be served because the local address
/// could not be resolved.
pub const STATUS_UNAVAILABLE: u16 = 503;

/// Content type of the page.
pub const HTML_TYPE: &'static str = "text/html; charset=utf-8";

/// Content type of the variables as JSON.
pub const JSON_TYPE: &'static str = "application/json";

/// Content type of plain text answers.
pub const TEXT_TYPE: &'static str = "text/plain";

/// Body of the liveness answer.
pub const HEALTH_BODY: &'static str = "OK";

/// Body of the answer when the local address could not be resolved.
pub const NO_ADDRESS_BODY: &'static str = "local network address unavailable";

/// Body of the answer for a method that the path does not serve.
pub const METHOD_NOT_ALLOWED_BODY: &'static str = "method not allowed";

/// Body of the answer for an unknown path.
pub const NOT_FOUND_BODY: &'static str = "not found";

/// What a request asks for, by method and path.
#[derive(PartialEq, Eq, Structural, Clone, Copy, Debug)]
pub enum Route {
    Root,
    Health,
    Api,
    MethodNotAllowed,
    NotFound,
}

/// The route of a request: an exact match of the path, served for `GET` only.
pub open spec fn route_of(method: Seq<char>, path: Seq<char>) -> Route {
    if path == "/"@ || path == "/health"@ || path == "/api"@ {
        if method != "GET"@ {
            Route::MethodNotAllowed
        } else if path == "/"@ {
            Route::Root
        } else if path == "/health"@ {
            Route::Health
        } else {
            Route::Api
        }
    } else {
        Route::NotFound
    }
}

/// Picks the handler of a request by its method and its exact path.
pub fn route(method: &str, path: &str) -> (r: Route)
    ensures
        r == route_of(method@, path@),
{
    let p = String::from_str(path);
    let m = String::from_str(method);
    let root = String::from_str("/");
    let health = String::from_str("/health");
    let api = String::from_str("/api");
    let get = String::from_str("GET");
    if p == root || p == health || p == api {
        if m != get {
            Route::MethodNotAllowed
        } else if p == root {
            Route::Root
        } else if p == health {
            Route::Health
        } else {
            Route::Api
        }
    } else {
        Route::NotFound
    }
}

/// The view of a response: status, content type and body.
pub type ResponseView = (u16, Seq<char>, Seq<char>);

/// An answer to a request.
pub struct Response {
    pub status: u16,
    pub content_type: String,
    pub body: String,
}

impl View for Response {
    type V = ResponseView;

    open spec fn view(&self) -> ResponseView {
        (self.status, self.content_type@, self.body@)
    }
}

fn respond(status: u16, content_type: &str, body: String) -> (r: Response)
    ensures
        r@ == (status, content_type@, body@),
{
    Response { status, content_type: String::from_str(content_type), body }
}

/// The liveness answer.
pub open spec fn health_response() -> ResponseView {
    (STATUS_OK, TEXT_TYPE@, HEALTH_BODY@)
}

/// Answers a liveness probe: status 200 and the body `OK`.
pub fn get_health() -> (r: Response)
    ensures
        r@ == health_response(),
        r.status == 200,
        r.body@ == "OK"@,
{
    respond(STATUS_OK, TEXT_TYPE, String::from_str(HEALTH_BODY))
}

/// The snapshot of the variables `vars` as read from the process.
pub open spec fn snapshot_of(vars: Seq<(String, String)>) -> Seq<EntryView> {
    collect_entries(pairs_view(vars))
}

/// The answer that lists the variables `vars` as JSON.
pub open spec fn api_response(vars: Seq<(String, String)>) -> ResponseView {
    (STATUS_OK, JSON_TYPE@, object_of(snapshot_of(vars)))
}

/// Answers a request for the variables: status 200 and a JSON object with one
/// member per variable of `vars`, the environment as read for this request.
pub fn get_env(vars: &Vec<(String, String)>) -> (r: Response)
    ensures
        r@ == api_response(vars@),
        r.status == 200,
        r.content_type@ == "application/json"@,
{
    let snap = Snapshot::from_vars(vars);
    respond(STATUS_OK, JSON_TYPE, encode_object(&snap))
}

/// The snapshot that the page shows: the variables `vars` with the hostname
/// and the local address set.
pub open spec fn enriched_of(vars: Seq<(String, String)>, host: Seq<char>, ip: Seq<char>) -> Seq<EntryView> {
    set_entry(set_entry(snapshot_of(vars), HOSTNAME_KEY@, host), LOCAL_IP_KEY@, ip)
}

/// The view of a text that may be missing.
pub open spec fn opt_view(o: Option<String>) -> Option<Seq<char>> {
    match o {
        Some(s) => Some(s@),
        None => None,
    }
}

/// The answer of the page to the variables `vars`, the hostname `host` and,
/// where it could be resolved, the local address `ip`.
pub open spec fn root_response(vars: Seq<(String, String)>, host: Seq<char>, ip: Option<Seq<char>>) -> ResponseView {
    match ip {
        Some(a) => (STATUS_OK, HTML_TYPE@, page_of(enriched_of(vars, host, a))),
        None => (STATUS_UNAVAILABLE, TEXT_TYPE@, NO_ADDRESS_BODY@),
    }
}

/// Builds the snapshot that the page shows: the variables, with `HOSTNAME`
/// and `LOCAL_IP` set to the resolved values.
pub fn capture(vars: &Vec<(String, String)>, hostname: String, local_ip: String) -> (r: Snapshot)
    ensures
        r.wf(),
        r@ == enriched_of(vars@, hostname@, local_ip@),
{
    let mut snap = Snapshot::from_vars(vars);
    snap.set(String::from_str(HOSTNAME_KEY), hostname);
    snap.set(String::from_str(LOCAL_IP_KEY), local_ip);
    snap
}

/// Answers a request for the page. `vars` is the environment as read for this
/// request, `hostname` the machine's name and `local_ip` its first
/// non-loopback address, `None` where none could be resolved: the request then
/// fails with status 503 and nothing is rendered.
pub fn root(vars: &Vec<(String, String)>, hostname: String, local_ip: Option<String>) -> (r: Response)
    ensures
        r@ == root_response(vars@, hostname@, opt_view(local_ip)),
        local_ip is Some <==> r.status == 200,
        local_ip is Some ==> r.content_type@ == "text/html; charset=utf-8"@,
{
    match local_ip {
        Some(ip) => {
            let snap = capture(vars, hostname, ip);
            respond(STATUS_OK, HTML_TYPE, render(&snap))
        },
        None => respond(STATUS_UNAVAILABLE, TEXT_TYPE, String::from_str(NO_ADDRESS_BODY)),
    }
}

/// Answers a request for an unknown path, or with a method that its path does
/// not serve.
pub fn miss(route: Route) -> (r: Response)
    requires
        route == Route::NotFound || route == Route::MethodNotAllowed,
    ensures
        route == Route::NotFound ==> r@ == (STATUS_NOT_FOUND, TEXT_TYPE@, NOT_FOUND_BODY@),
        route == Route::MethodNotAllowed ==> r@ == (
            STATUS_METHOD_NOT_ALLOWED,
            TEXT_TYPE@,
            METHOD_NOT_ALLOWED_BODY@,
        ),
{
    match route {
        Route::NotFound => respond(STATUS_NOT_FOUND, TEXT_TYPE, String::from_str(NOT_FOUND_BODY)),
        _ => respond(
            STATUS_METHOD_NOT_ALLOWED,
            TEXT_TYPE,
            String::from_str(METHOD_NOT_ALLOWED_BODY),
        ),
    }
}

} // verus!
