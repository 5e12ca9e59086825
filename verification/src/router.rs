//! From a request's method and path to the operation it asks for.

use vstd::prelude::*;
use vstd::string::StringExecFns;
use crate::semver::Semver;
use crate::text::{chars_of, same_text, string_of, trim, trimmed};

verus! {

#[verifier::external_type_specification]
#[verifier::external_body]
#[verifier::reject_recursive_types(T)]
pub struct ExRouter<T>(route_recognizer::Router<T>);

#[derive(Debug)]
pub struct LocalApiServerSpawnRequest {
    pub name: String,
    pub port: Option<u16>,
    pub dir: Vec<String>,
    pub watch_dir: Option<bool>,
}

#[derive(Debug)]
pub struct LocalApiServerStopRequest {
    pub name: String,
}

#[derive(Debug)]
pub struct LocalApiServerLogsRequest {
    pub name: String,
}

#[derive(Debug)]
pub struct FrontendUpdateRequest {
    pub version: Semver,
}

#[derive(Clone, Copy, Debug, PartialEq, Eq, Structural)]
pub enum ApiServersPathRoutes {
    Spawn,
    All,
    Stop,
    Logs,
}

#[derive(Clone, Copy, Debug, PartialEq, Eq, Structural)]
pub enum ApiPathRoutes {
    FrontendLatest,
    FrontendUpdate,
    Shutdown,
    ApiServers(ApiServersPathRoutes),
}

/// A route by its path alone.
#[derive(Clone, Copy, Debug, PartialEq, Eq, Structural)]
pub enum PathRoutes {
    Frontend,
    Api(ApiPathRoutes),
}

#[derive(Debug)]
pub enum ApiServersRoutes {
    Spawn(LocalApiServerSpawnRequest),
    All,
    Stop(LocalApiServerStopRequest),
    Logs(LocalApiServerLogsRequest),
}

#[derive(Debug)]
pub enum ApiRoutes {
    FrontendLatest,
    FrontendUpdate(FrontendUpdateRequest),
    Shutdown,
    ApiServers(ApiServersRoutes),
}

/// The operation that a request asks for, with what it brought.
#[derive(Debug)]
pub enum Routes {
    /// The file asked for, if the path names one, and the encodings that the
    /// client accepts.
    Frontend(Option<String>, Vec<String>),
    Api(ApiRoutes),
}

#[derive(Debug)]
pub enum RoutingErr {
    Unmatched,
    InvalidMethod,
    InvalidRequestBody(String),
}

/// A path that was recognised, before the body is looked at.
#[derive(Debug)]
pub struct RouteMatch {
    pub route: PathRoutes,
    /// For a frontend route, the part of the path that names the file.
    pub path: Option<String>,
}

/// The body of a request, once decoded for the route that needs it.
#[derive(Debug)]
pub enum RequestBody {
    Spawn(LocalApiServerSpawnRequest),
    Stop(LocalApiServerStopRequest),
    Logs(LocalApiServerLogsRequest),
    FrontendUpdate(FrontendUpdateRequest),
}

/// Where reading a request's body failed.
#[derive(Clone, Copy, Debug, PartialEq, Eq, Structural)]
pub enum BodyStage {
    Collect,
    Text,
    Decode,
}

pub const ENCODINGS_SEPARATOR: char = ',';

pub const ACCEPT_ANY_ENCODING: &'static str = "*";

pub const PATH_PARAM: &'static str = "path";

/// What is reported when a route that takes a body gets none of its kind.
pub const BODY_OF_ANOTHER_KIND: &'static str = "the request body is of another kind";

/// The routes added to a router so far, in order: each pattern with the
/// number it was added under.
pub uninterp spec fn router_routes(router: route_recognizer::Router<usize>) -> Seq<
    (Seq<char>, usize),
>;

/// What a router holding `routes` recognises in `path`: the number of the
/// route that matches best, and what the path held in the place of the
/// parameter `param`, if the route has it.
pub uninterp spec fn recognized(
    routes: Seq<(Seq<char>, usize)>,
    path: Seq<char>,
    param: Seq<char>,
) -> Option<(usize, Option<Seq<char>>)>;

/// What was recognised, as the contracts speak of it.
pub open spec fn found_view(found: Option<(usize, Option<String>)>) -> Option<
    (usize, Option<Seq<char>>),
> {
    match found {
        Some((handler, Some(value))) => Some((handler, Some(value@))),
        Some((handler, None)) => Some((handler, None)),
        None => None,
    }
}

/// Calls `route_recognizer::Router::new`. Believed: the new router holds no
/// route.
#[verifier::external_body]
fn router_new() -> (router: route_recognizer::Router<usize>)
    ensures
        router_routes(router) == Seq::<(Seq<char>, usize)>::empty(),
{
    route_recognizer::Router::new()
}

/// Calls `route_recognizer::Router::add`. Believed: the route is added
/// behind those already there. Left out by `requires`: a pattern with
/// characters outside ASCII, which the router cuts at byte positions, and
/// one that holds the character U+0000, on whose code the router's
/// character classes subtract one.
#[verifier::external_body]
fn router_add(router: &mut route_recognizer::Router<usize>, route: &str, handler: usize)
    requires
        route.is_ascii(),
        no_nul(route@),
    ensures
        router_routes(*final(router)) == router_routes(*old(router)).push((route@, handler)),
{
    router.add(route, handler)
}

/// Calls `route_recognizer::Router::recognize`, and `Params::find` on what
/// it matched. Believed: the result depends on the routes added, the path
/// and the parameter's name alone. Left out by `requires`: a path that holds
/// the character U+0000, on whose code the router's character classes
/// subtract one.
#[verifier::external_body]
fn router_recognize(router: &route_recognizer::Router<usize>, path: &str, param: &str) -> (found:
    Option<(usize, Option<String>)>)
    requires
        no_nul(path@),
    ensures
        found_view(found) == recognized(router_routes(*router), path@, param@),
{
    router.recognize(path).ok().map(
        |m| (**m.handler(), m.params().find(param).map(|value| value.to_owned())),
    )
}

/// The table of routes: each pattern with its number.
pub open spec fn route_patterns() -> Seq<(Seq<char>, usize)> {
    seq![
        ("/api/frontend/latest"@, 0usize),
        ("/api/frontend/update"@, 1usize),
        ("/api/servers/logs"@, 2usize),
        ("/api/servers/spawn"@, 3usize),
        ("/api/servers/stop"@, 4usize),
        ("/api/servers"@, 5usize),
        ("/api/shutdown"@, 6usize),
        ("/*path"@, 7usize),
        ("/"@, 8usize),
    ]
}

/// The route with the number `handler` in the table.
pub open spec fn path_route(handler: usize) -> Option<PathRoutes> {
    if handler == 0 {
        Some(PathRoutes::Api(ApiPathRoutes::FrontendLatest))
    } else if handler == 1 {
        Some(PathRoutes::Api(ApiPathRoutes::FrontendUpdate))
    } else if handler == 2 {
        Some(PathRoutes::Api(ApiPathRoutes::ApiServers(ApiServersPathRoutes::Logs)))
    } else if handler == 3 {
        Some(PathRoutes::Api(ApiPathRoutes::ApiServers(ApiServersPathRoutes::Spawn)))
    } else if handler == 4 {
        Some(PathRoutes::Api(ApiPathRoutes::ApiServers(ApiServersPathRoutes::Stop)))
    } else if handler == 5 {
        Some(PathRoutes::Api(ApiPathRoutes::ApiServers(ApiServersPathRoutes::All)))
    } else if handler == 6 {
        Some(PathRoutes::Api(ApiPathRoutes::Shutdown))
    } else if handler == 7 || handler == 8 {
        Some(PathRoutes::Frontend)
    } else {
        None
    }
}

/// The method that a route insists on, if it does.
pub open spec fn required_method(route: PathRoutes) -> Option<Seq<char>> {
    match route {
        PathRoutes::Api(ApiPathRoutes::FrontendUpdate) => Some("POST"@),
        PathRoutes::Api(ApiPathRoutes::ApiServers(ApiServersPathRoutes::Spawn)) => Some("POST"@),
        PathRoutes::Api(ApiPathRoutes::ApiServers(ApiServersPathRoutes::Stop)) => Some("POST"@),
        PathRoutes::Api(ApiPathRoutes::ApiServers(ApiServersPathRoutes::Logs)) => Some("GET"@),
        _ => None,
    }
}

/// Whether the character U+0000 stands nowhere in `s`.
pub open spec fn no_nul(s: Seq<char>) -> bool {
    forall|i: int| 0 <= i < s.len() ==> #[trigger] s[i] != '\0'
}

/// The route that `path` leads to, with the file it names for a frontend
/// route. A path that holds the character U+0000 leads nowhere: no route
/// is looked for.
pub open spec fn matched_route(path: Seq<char>) -> Option<(PathRoutes, Option<Seq<char>>)> {
    if !no_nul(path) {
        None
    } else {
        match recognized(route_patterns(), path, PATH_PARAM@) {
            Some((handler, value)) => match path_route(handler) {
                Some(PathRoutes::Frontend) => Some((PathRoutes::Frontend, value)),
                Some(route) => Some((route, None)),
                None => None,
            },
            None => None,
        }
    }
}

/// Where the piece that starts at `from` ends: at the next separator, or at
/// the end of the text.
pub open spec fn piece_end(s: Seq<char>, from: int) -> int
    decreases s.len() - from,
{
    if from >= s.len() || s[from] == ENCODINGS_SEPARATOR {
        from
    } else {
        piece_end(s, from + 1)
    }
}

/// The pieces of `s` from `from` on, as the separator parts them. A text
/// without separator is one piece, an empty text too.
pub open spec fn pieces(s: Seq<char>, from: int) -> Seq<Seq<char>>
    decreases s.len() - from,
{
    let end = piece_end(s, from);
    if end >= s.len() || end < from {
        seq![s.subrange(from, s.len() as int)]
    } else {
        seq![s.subrange(from, end)] + pieces(s, end + 1)
    }
}

/// The encodings that a header value lists: its pieces, each without the
/// white space around it.
pub open spec fn listed_encodings(header: Seq<char>) -> Seq<Seq<char>> {
    pieces(header, 0).map_values(|piece: Seq<char>| trimmed(piece))
}

/// The encodings that a request accepts: those its header lists, or any
/// where it has no such header.
pub open spec fn accepted_encodings(header: Option<Seq<char>>) -> Seq<Seq<char>> {
    match header {
        Some(h) => listed_encodings(h),
        None => seq![ACCEPT_ANY_ENCODING@],
    }
}

/// The strings as texts.
pub open spec fn string_views(strings: Seq<String>) -> Seq<Seq<char>> {
    strings.map_values(|s: String| s@)
}

/// The words for a body that could not be read.
pub open spec fn body_failure_text(stage: BodyStage, reason: Seq<char>) -> Seq<char> {
    match stage {
        BodyStage::Collect => "cannot collect request body: "@ + reason,
        BodyStage::Text => "cannot convert body to string: "@ + reason,
        BodyStage::Decode => "incorrect request body provided: "@ + reason,
    }
}

fn find_piece_end(chars: &Vec<char>, from: usize) -> (end: usize)
    requires
        from <= chars@.len(),
    ensures
        end == piece_end(chars@, from as int),
        from <= end <= chars@.len(),
{
    let mut i: usize = from;
    while i < chars.len() && chars[i] != ENCODINGS_SEPARATOR
        invariant
            from <= i <= chars@.len(),
            piece_end(chars@, from as int) == piece_end(chars@, i as int),
        decreases chars@.len() - i,
    {
        i += 1;
    }
    i
}

/// The encodings that a header value lists, in order.
pub fn split_encodings(s: &str) -> (out: Vec<String>)
    ensures
        string_views(out@) == listed_encodings(s@),
{
    let chars = chars_of(s);
    let mut out: Vec<String> = Vec::new();
    let mut from: usize = 0;
    let ghost mut done: Seq<Seq<char>> = seq![];
    loop
        invariant
            chars@ == s@,
            from <= chars@.len(),
            done + pieces(chars@, from as int) == pieces(chars@, 0),
            string_views(out@) == done.map_values(|piece: Seq<char>| trimmed(piece)),
        decreases chars@.len() - from,
    {
        let end = find_piece_end(&chars, from);
        let piece = string_of(&chars, from, end);
        let ghost before = out@;
        out.push(trim(piece.as_str()));
        proof {
            let cut = chars@.subrange(from as int, end as int);
            assert(string_views(out@) =~= string_views(before).push(trimmed(cut)));
            assert(done.push(cut).map_values(|piece: Seq<char>| trimmed(piece)) =~= done.map_values(
                |piece: Seq<char>| trimmed(piece),
            ).push(trimmed(cut)));
            if end >= chars.len() {
                assert(cut =~= chars@.subrange(from as int, chars@.len() as int));
                assert(done.push(cut) =~= done + pieces(chars@, from as int));
            } else {
                assert(done.push(cut) + pieces(chars@, end + 1) =~= done + pieces(
                    chars@,
                    from as int,
                ));
            }
            done = done.push(cut);
        }
        if end >= chars.len() {
            return out;
        }
        from = end + 1;
    }
}

/// The encodings that a request accepts, from its `Accept-Encoding` header.
pub fn parse_accepted_encodings(header: Option<&str>) -> (out: Vec<String>)
    ensures
        string_views(out@) == accepted_encodings(
            match header {
                Some(h) => Some(h@),
                None => None,
            },
        ),
{
    let mut encodings: Vec<String> = match header {
        Some(h) => split_encodings(h),
        None => Vec::new(),
    };
    if encodings.len() == 0 {
        encodings.push(String::from_str(ACCEPT_ANY_ENCODING));
        assert(string_views(encodings@) =~= seq![ACCEPT_ANY_ENCODING@]);
        proof {
            if header is Some {
                assert(listed_encodings(header->0@).len() == pieces(header->0@, 0).len());
            }
        }
    }
    encodings
}

/// A router that holds the table of routes.
fn route_table() -> (router: route_recognizer::Router<usize>)
    ensures
        router_routes(router) == route_patterns(),
{
    proof {
        reveal_strlit("/api/frontend/latest");
        reveal_strlit("/api/frontend/update");
        reveal_strlit("/api/servers/logs");
        reveal_strlit("/api/servers/spawn");
        reveal_strlit("/api/servers/stop");
        reveal_strlit("/api/servers");
        reveal_strlit("/api/shutdown");
        reveal_strlit("/*path");
        reveal_strlit("/");
    }
    let mut router = router_new();
    router_add(&mut router, "/api/frontend/latest", 0);
    router_add(&mut router, "/api/frontend/update", 1);
    router_add(&mut router, "/api/servers/logs", 2);
    router_add(&mut router, "/api/servers/spawn", 3);
    router_add(&mut router, "/api/servers/stop", 4);
    router_add(&mut router, "/api/servers", 5);
    router_add(&mut router, "/api/shutdown", 6);
    router_add(&mut router, "/*path", 7);
    router_add(&mut router, "/", 8);
    assert(router_routes(router) =~= route_patterns());
    router
}

fn route_of(handler: usize) -> (route: Option<PathRoutes>)
    ensures
        route == path_route(handler),
{
    match handler {
        0 => Some(PathRoutes::Api(ApiPathRoutes::FrontendLatest)),
        1 => Some(PathRoutes::Api(ApiPathRoutes::FrontendUpdate)),
        2 => Some(PathRoutes::Api(ApiPathRoutes::ApiServers(ApiServersPathRoutes::Logs))),
        3 => Some(PathRoutes::Api(ApiPathRoutes::ApiServers(ApiServersPathRoutes::Spawn))),
        4 => Some(PathRoutes::Api(ApiPathRoutes::ApiServers(ApiServersPathRoutes::Stop))),
        5 => Some(PathRoutes::Api(ApiPathRoutes::ApiServers(ApiServersPathRoutes::All))),
        6 => Some(PathRoutes::Api(ApiPathRoutes::Shutdown)),
        7 => Some(PathRoutes::Frontend),
        8 => Some(PathRoutes::Frontend),
        _ => None,
    }
}

/// Whether `method` may be used on `route`.
pub fn method_allowed(route: PathRoutes, method: &str) -> (allowed: bool)
    ensures
        allowed == match required_method(route) {
            Some(m) => method@ == m,
            None => true,
        },
{
    match route {
        PathRoutes::Api(ApiPathRoutes::FrontendUpdate) => same_text(method, "POST"),
        PathRoutes::Api(ApiPathRoutes::ApiServers(ApiServersPathRoutes::Spawn)) => same_text(
            method,
            "POST",
        ),
        PathRoutes::Api(ApiPathRoutes::ApiServers(ApiServersPathRoutes::Stop)) => same_text(
            method,
            "POST",
        ),
        PathRoutes::Api(ApiPathRoutes::ApiServers(ApiServersPathRoutes::Logs)) => same_text(
            method,
            "GET",
        ),
        _ => true,
    }
}

/// The route that a finished match stands for, given the route and what the
/// path held for the file's name.
pub fn route_for(found: Option<(usize, Option<String>)>, method: &str) -> (r: Result<
    RouteMatch,
    RoutingErr,
>)
    ensures
        match found {
            None => r matches Err(RoutingErr::Unmatched),
            Some((handler, value)) => match path_route(handler) {
                None => r matches Err(RoutingErr::Unmatched),
                Some(route) => if required_method(route) is Some && required_method(route)->0
                    != method@ {
                    r matches Err(RoutingErr::InvalidMethod)
                } else {
                    r is Ok && r->Ok_0.route == route && r->Ok_0.path == (if route
                        == PathRoutes::Frontend {
                        value
                    } else {
                        None
                    })
                },
            },
        },
{
    let (handler, value) = match found {
        Some(pair) => pair,
        None => return Err(RoutingErr::Unmatched),
    };
    let route = match route_of(handler) {
        Some(route) => route,
        None => return Err(RoutingErr::Unmatched),
    };
    if !method_allowed(route, method) {
        return Err(RoutingErr::InvalidMethod);
    }
    match route {
        PathRoutes::Frontend => Ok(RouteMatch { route, path: value }),
        _ => Ok(RouteMatch { route, path: None }),
    }
}

/// Whether the character U+0000 stands nowhere in `s`.
pub fn is_free_of_nul(s: &str) -> (free: bool)
    ensures
        free == no_nul(s@),
{
    let chars = chars_of(s);
    let mut i: usize = 0;
    while i < chars.len()
        invariant
            chars@ == s@,
            i <= chars@.len(),
            forall|j: int| 0 <= j < i ==> #[trigger] chars@[j] != '\0',
        decreases chars@.len() - i,
    {
        if chars[i] == '\0' {
            return false;
        }
        i += 1;
    }
    true
}

/// Finds the route of a request by its path and holds its method against
/// what the route insists on. A path that no route matches is `Unmatched`,
/// and so is one that holds the character U+0000, for which no route is
/// looked for; a method that the route does not take is `InvalidMethod`.
pub fn get_route(method: &str, path: &str) -> (r: Result<RouteMatch, RoutingErr>)
    ensures
        !no_nul(path@) ==> r matches Err(RoutingErr::Unmatched),
        match matched_route(path@) {
            None => r matches Err(RoutingErr::Unmatched),
            Some((route, value)) => if required_method(route) is Some && required_method(
                route,
            )->0 != method@ {
                r matches Err(RoutingErr::InvalidMethod)
            } else {
                r is Ok && r->Ok_0.route == route && match value {
                    Some(v) => r->Ok_0.path is Some && r->Ok_0.path->0@ == v,
                    None => r->Ok_0.path is None,
                }
            },
        },
{
    if !is_free_of_nul(path) {
        return Err(RoutingErr::Unmatched);
    }
    let router = route_table();
    let found = router_recognize(&router, path, PATH_PARAM);
    route_for(found, method)
}

/// The error for a body that could not be read, by the stage that failed.
pub fn body_failure(stage: BodyStage, reason: &str) -> (err: RoutingErr)
    ensures
        err matches RoutingErr::InvalidRequestBody(msg) && msg@ == body_failure_text(
            stage,
            reason@,
        ),
{
    let prefix = match stage {
        BodyStage::Collect => "cannot collect request body: ",
        BodyStage::Text => "cannot convert body to string: ",
        BodyStage::Decode => "incorrect request body provided: ",
    };
    RoutingErr::InvalidRequestBody(String::from_str(prefix).concat(reason))
}

/// Whether `route` takes a body, which must then be decoded before the
/// route is complete.
pub fn needs_body(route: PathRoutes) -> (needed: bool)
    ensures
        needed == (required_method(route) is Some),
{
    match route {
        PathRoutes::Api(ApiPathRoutes::FrontendUpdate) => true,
        PathRoutes::Api(ApiPathRoutes::ApiServers(ApiServersPathRoutes::Spawn)) => true,
        PathRoutes::Api(ApiPathRoutes::ApiServers(ApiServersPathRoutes::Stop)) => true,
        PathRoutes::Api(ApiPathRoutes::ApiServers(ApiServersPathRoutes::Logs)) => true,
        _ => false,
    }
}

/// Completes a matched route with what the request brought. A route that
/// takes a body gets the decoded body of its own kind; a failure to read it
/// is passed on, and a body of another kind, or none, is refused. A
/// frontend route gets the accepted encodings.
pub fn complete_route(
    matched: RouteMatch,
    accept_encoding: Option<&str>,
    body: Option<Result<RequestBody, RoutingErr>>,
) -> (r: Result<Routes, RoutingErr>)
    ensures
        match matched.route {
            PathRoutes::Frontend => r matches Ok(Routes::Frontend(path, encodings)) && path
                == matched.path && string_views(encodings@) == accepted_encodings(
                match accept_encoding {
                    Some(h) => Some(h@),
                    None => None,
                },
            ),
            PathRoutes::Api(ApiPathRoutes::FrontendLatest) => r matches Ok(
                Routes::Api(ApiRoutes::FrontendLatest),
            ),
            PathRoutes::Api(ApiPathRoutes::Shutdown) => r matches Ok(
                Routes::Api(ApiRoutes::Shutdown),
            ),
            PathRoutes::Api(ApiPathRoutes::ApiServers(ApiServersPathRoutes::All)) => r matches Ok(
                Routes::Api(ApiRoutes::ApiServers(ApiServersRoutes::All)),
            ),
            PathRoutes::Api(ApiPathRoutes::FrontendUpdate) => match body {
                Some(Ok(RequestBody::FrontendUpdate(req))) => r matches Ok(
                    Routes::Api(ApiRoutes::FrontendUpdate(got)),
                ) && got == req,
                Some(Err(err)) => r == Err::<Routes, RoutingErr>(err),
                _ => r matches Err(RoutingErr::InvalidRequestBody(msg)) && msg@ == BODY_OF_ANOTHER_KIND@,
            },
            PathRoutes::Api(ApiPathRoutes::ApiServers(ApiServersPathRoutes::Spawn)) => match body {
                Some(Ok(RequestBody::Spawn(req))) => r matches Ok(
                    Routes::Api(ApiRoutes::ApiServers(ApiServersRoutes::Spawn(got))),
                ) && got == req,
                Some(Err(err)) => r == Err::<Routes, RoutingErr>(err),
                _ => r matches Err(RoutingErr::InvalidRequestBody(msg)) && msg@ == BODY_OF_ANOTHER_KIND@,
            },
            PathRoutes::Api(ApiPathRoutes::ApiServers(ApiServersPathRoutes::Stop)) => match body {
                Some(Ok(RequestBody::Stop(req))) => r matches Ok(
                    Routes::Api(ApiRoutes::ApiServers(ApiServersRoutes::Stop(got))),
                ) && got == req,
                Some(Err(err)) => r == Err::<Routes, RoutingErr>(err),
                _ => r matches Err(RoutingErr::InvalidRequestBody(msg)) && msg@ == BODY_OF_ANOTHER_KIND@,
            },
            PathRoutes::Api(ApiPathRoutes::ApiServers(ApiServersPathRoutes::Logs)) => match body {
                Some(Ok(RequestBody::Logs(req))) => r matches Ok(
                    Routes::Api(ApiRoutes::ApiServers(ApiServersRoutes::Logs(got))),
                ) && got == req,
                Some(Err(err)) => r == Err::<Routes, RoutingErr>(err),
                _ => r matches Err(RoutingErr::InvalidRequestBody(msg)) && msg@ == BODY_OF_ANOTHER_KIND@,
            },
        },
{
    match matched.route {
        PathRoutes::Frontend => Ok(
            Routes::Frontend(matched.path, parse_accepted_encodings(accept_encoding)),
        ),
        PathRoutes::Api(ApiPathRoutes::FrontendLatest) => Ok(
            Routes::Api(ApiRoutes::FrontendLatest),
        ),
        PathRoutes::Api(ApiPathRoutes::Shutdown) => Ok(Routes::Api(ApiRoutes::Shutdown)),
        PathRoutes::Api(ApiPathRoutes::ApiServers(ApiServersPathRoutes::All)) => Ok(
            Routes::Api(ApiRoutes::ApiServers(ApiServersRoutes::All)),
        ),
        PathRoutes::Api(ApiPathRoutes::FrontendUpdate) => match body {
            Some(Ok(RequestBody::FrontendUpdate(req))) => Ok(
                Routes::Api(ApiRoutes::FrontendUpdate(req)),
            ),
            Some(Err(err)) => Err(err),
            _ => Err(unexpected_body()),
        },
        PathRoutes::Api(ApiPathRoutes::ApiServers(ApiServersPathRoutes::Spawn)) => match body {
            Some(Ok(RequestBody::Spawn(req))) => Ok(
                Routes::Api(ApiRoutes::ApiServers(ApiServersRoutes::Spawn(req))),
            ),
            Some(Err(err)) => Err(err),
            _ => Err(unexpected_body()),
        },
        PathRoutes::Api(ApiPathRoutes::ApiServers(ApiServersPathRoutes::Stop)) => match body {
            Some(Ok(RequestBody::Stop(req))) => Ok(
                Routes::Api(ApiRoutes::ApiServers(ApiServersRoutes::Stop(req))),
            ),
            Some(Err(err)) => Err(err),
            _ => Err(unexpected_body()),
        },
        PathRoutes::Api(ApiPathRoutes::ApiServers(ApiServersPathRoutes::Logs)) => match body {
            Some(Ok(RequestBody::Logs(req))) => Ok(
                Routes::Api(ApiRoutes::ApiServers(ApiServersRoutes::Logs(req))),
            ),
            Some(Err(err)) => Err(err),
            _ => Err(unexpected_body()),
        },
    }
}

fn unexpected_body() -> (err: RoutingErr)
    ensures
        err matches RoutingErr::InvalidRequestBody(msg) && msg@ == BODY_OF_ANOTHER_KIND@,
{
    RoutingErr::InvalidRequestBody(String::from_str(BODY_OF_ANOTHER_KIND))
}

} // verus!
