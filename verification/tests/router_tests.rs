use mpv_web_client::router::{
    body_failure, complete_route, get_route, is_free_of_nul, method_allowed, needs_body, parse_accepted_encodings, route_for,
    split_encodings, ApiPathRoutes, ApiRoutes, ApiServersPathRoutes, ApiServersRoutes, BodyStage,
    FrontendUpdateRequest, LocalApiServerLogsRequest, LocalApiServerSpawnRequest, LocalApiServerStopRequest,
    PathRoutes, RequestBody, RouteMatch, Routes, RoutingErr,
};
use mpv_web_client::semver::Semver;

fn route(method: &str, path: &str) -> RouteMatch {
    match get_route(method, path) {
        Ok(m) => m,
        Err(_) => panic!("{} {} found no route", method, path),
    }
}

#[test]
fn api_paths_lead_to_their_routes() {
    let cases = [
        ("GET", "/api/frontend/latest", PathRoutes::Api(ApiPathRoutes::FrontendLatest)),
        ("POST", "/api/frontend/update", PathRoutes::Api(ApiPathRoutes::FrontendUpdate)),
        ("GET", "/api/servers/logs", PathRoutes::Api(ApiPathRoutes::ApiServers(ApiServersPathRoutes::Logs))),
        ("POST", "/api/servers/spawn", PathRoutes::Api(ApiPathRoutes::ApiServers(ApiServersPathRoutes::Spawn))),
        ("POST", "/api/servers/stop", PathRoutes::Api(ApiPathRoutes::ApiServers(ApiServersPathRoutes::Stop))),
        ("GET", "/api/servers", PathRoutes::Api(ApiPathRoutes::ApiServers(ApiServersPathRoutes::All))),
        ("DELETE", "/api/servers", PathRoutes::Api(ApiPathRoutes::ApiServers(ApiServersPathRoutes::All))),
        ("POST", "/api/shutdown", PathRoutes::Api(ApiPathRoutes::Shutdown)),
        ("GET", "/api/shutdown", PathRoutes::Api(ApiPathRoutes::Shutdown)),
    ];
    for (method, path, expected) in cases {
        let m = route(method, path);
        assert_eq!(m.route, expected, "{} {}", method, path);
        assert_eq!(m.path, None);
    }
}

#[test]
fn other_paths_lead_to_the_frontend() {
    let m = route("GET", "/");
    assert_eq!(m.route, PathRoutes::Frontend);
    assert_eq!(m.path, None);
    let m = route("GET", "/index.html");
    assert_eq!(m.route, PathRoutes::Frontend);
    assert_eq!(m.path.as_deref(), Some("index.html"));
    let m = route("GET", "/assets/app.js");
    assert_eq!(m.route, PathRoutes::Frontend);
    assert_eq!(m.path.as_deref(), Some("assets/app.js"));
    let m = route("GET", "/api/unknown");
    assert_eq!(m.route, PathRoutes::Frontend);
    assert_eq!(m.path.as_deref(), Some("api/unknown"));
}

#[test]
fn a_wrong_method_is_refused() {
    for (method, path) in [
        ("GET", "/api/frontend/update"),
        ("GET", "/api/servers/spawn"),
        ("PUT", "/api/servers/stop"),
        ("POST", "/api/servers/logs"),
        ("post", "/api/servers/stop"),
    ] {
        assert!(matches!(get_route(method, path), Err(RoutingErr::InvalidMethod)), "{} {}", method, path);
    }
}

#[test]
fn what_no_route_matches_is_unmatched() {
    assert!(matches!(route_for(None, "GET"), Err(RoutingErr::Unmatched)));
    assert!(matches!(route_for(Some((9, None)), "GET"), Err(RoutingErr::Unmatched)));
    let m = route_for(Some((7, Some("a.css".to_string()))), "GET").ok().unwrap();
    assert_eq!(m.route, PathRoutes::Frontend);
    assert_eq!(m.path.as_deref(), Some("a.css"));
    let m = route_for(Some((6, Some("kept out".to_string()))), "GET").ok().unwrap();
    assert_eq!(m.route, PathRoutes::Api(ApiPathRoutes::Shutdown));
    assert_eq!(m.path, None);
    assert!(matches!(route_for(Some((3, None)), "GET"), Err(RoutingErr::InvalidMethod)));
}

#[test]
fn methods_and_bodies_by_route() {
    let spawn = PathRoutes::Api(ApiPathRoutes::ApiServers(ApiServersPathRoutes::Spawn));
    let logs = PathRoutes::Api(ApiPathRoutes::ApiServers(ApiServersPathRoutes::Logs));
    assert!(method_allowed(spawn, "POST"));
    assert!(!method_allowed(spawn, "GET"));
    assert!(method_allowed(logs, "GET"));
    assert!(!method_allowed(logs, "POST"));
    assert!(method_allowed(PathRoutes::Frontend, "ANYTHING"));
    assert!(needs_body(spawn));
    assert!(needs_body(logs));
    assert!(needs_body(PathRoutes::Api(ApiPathRoutes::FrontendUpdate)));
    assert!(!needs_body(PathRoutes::Frontend));
    assert!(!needs_body(PathRoutes::Api(ApiPathRoutes::Shutdown)));
}

#[test]
fn encodings_are_split_and_trimmed() {
    assert_eq!(split_encodings("gzip, deflate, br"), vec!["gzip", "deflate", "br"]);
    assert_eq!(split_encodings("gzip"), vec!["gzip"]);
    assert_eq!(split_encodings(""), vec![""]);
    assert_eq!(split_encodings(" gzip ,,\tbr;q=0.5 ,"), vec!["gzip", "", "br;q=0.5", ""]);
    assert_eq!(parse_accepted_encodings(Some("gzip,  identity")), vec!["gzip", "identity"]);
    assert_eq!(parse_accepted_encodings(None), vec!["*"]);
}

#[test]
fn a_frontend_route_gets_path_and_encodings() {
    let matched = RouteMatch { route: PathRoutes::Frontend, path: Some("app.js".to_string()) };
    match complete_route(matched, Some("gzip, br"), None) {
        Ok(Routes::Frontend(path, encodings)) => {
            assert_eq!(path.as_deref(), Some("app.js"));
            assert_eq!(encodings, vec!["gzip", "br"]);
        }
        _ => panic!("no frontend route"),
    }
}

#[test]
fn a_route_with_body_gets_the_body_of_its_kind() {
    let spawn = PathRoutes::Api(ApiPathRoutes::ApiServers(ApiServersPathRoutes::Spawn));
    let req = LocalApiServerSpawnRequest { name: "w1".to_string(), port: Some(4000), dir: vec!["/m".to_string()], watch_dir: None };
    match complete_route(RouteMatch { route: spawn, path: None }, None, Some(Ok(RequestBody::Spawn(req)))) {
        Ok(Routes::Api(ApiRoutes::ApiServers(ApiServersRoutes::Spawn(got)))) => {
            assert_eq!(got.name, "w1");
            assert_eq!(got.port, Some(4000));
            assert_eq!(got.dir, vec!["/m"]);
            assert_eq!(got.watch_dir, None);
        }
        _ => panic!("no spawn route"),
    }
    let stop = PathRoutes::Api(ApiPathRoutes::ApiServers(ApiServersPathRoutes::Stop));
    let req = LocalApiServerStopRequest { name: "w1".to_string() };
    match complete_route(RouteMatch { route: stop, path: None }, None, Some(Ok(RequestBody::Stop(req)))) {
        Ok(Routes::Api(ApiRoutes::ApiServers(ApiServersRoutes::Stop(got)))) => assert_eq!(got.name, "w1"),
        _ => panic!("no stop route"),
    }
    let logs = PathRoutes::Api(ApiPathRoutes::ApiServers(ApiServersPathRoutes::Logs));
    let req = LocalApiServerLogsRequest { name: "w1".to_string() };
    match complete_route(RouteMatch { route: logs, path: None }, None, Some(Ok(RequestBody::Logs(req)))) {
        Ok(Routes::Api(ApiRoutes::ApiServers(ApiServersRoutes::Logs(got)))) => assert_eq!(got.name, "w1"),
        _ => panic!("no logs route"),
    }
    let update = PathRoutes::Api(ApiPathRoutes::FrontendUpdate);
    let req = FrontendUpdateRequest { version: Semver { major: 1, minor: 2, patch: 3 } };
    match complete_route(RouteMatch { route: update, path: None }, None, Some(Ok(RequestBody::FrontendUpdate(req)))) {
        Ok(Routes::Api(ApiRoutes::FrontendUpdate(got))) => assert_eq!(got.version, Semver { major: 1, minor: 2, patch: 3 }),
        _ => panic!("no update route"),
    }
}

#[test]
fn a_missing_or_foreign_body_is_refused() {
    let stop = PathRoutes::Api(ApiPathRoutes::ApiServers(ApiServersPathRoutes::Stop));
    assert!(matches!(
        complete_route(RouteMatch { route: stop, path: None }, None, None),
        Err(RoutingErr::InvalidRequestBody(_))
    ));
    let req = LocalApiServerLogsRequest { name: "w1".to_string() };
    assert!(matches!(
        complete_route(RouteMatch { route: stop, path: None }, None, Some(Ok(RequestBody::Logs(req)))),
        Err(RoutingErr::InvalidRequestBody(_))
    ));
    match complete_route(
        RouteMatch { route: stop, path: None },
        None,
        Some(Err(body_failure(BodyStage::Decode, "missing field `name`"))),
    ) {
        Err(RoutingErr::InvalidRequestBody(msg)) => {
            assert_eq!(msg, "incorrect request body provided: missing field `name`")
        }
        _ => panic!("a body that failed to decode was accepted"),
    }
}

#[test]
fn routes_without_body_ignore_it() {
    let all = PathRoutes::Api(ApiPathRoutes::ApiServers(ApiServersPathRoutes::All));
    assert!(matches!(
        complete_route(RouteMatch { route: all, path: None }, None, None),
        Ok(Routes::Api(ApiRoutes::ApiServers(ApiServersRoutes::All)))
    ));
    assert!(matches!(
        complete_route(RouteMatch { route: PathRoutes::Api(ApiPathRoutes::Shutdown), path: None }, None, None),
        Ok(Routes::Api(ApiRoutes::Shutdown))
    ));
    assert!(matches!(
        complete_route(RouteMatch { route: PathRoutes::Api(ApiPathRoutes::FrontendLatest), path: None }, None, None),
        Ok(Routes::Api(ApiRoutes::FrontendLatest))
    ));
}

#[test]
fn body_failures_in_words() {
    for (stage, text) in [
        (BodyStage::Collect, "cannot collect request body: why"),
        (BodyStage::Text, "cannot convert body to string: why"),
        (BodyStage::Decode, "incorrect request body provided: why"),
    ] {
        match body_failure(stage, "why") {
            RoutingErr::InvalidRequestBody(msg) => assert_eq!(msg, text),
            _ => panic!("another error"),
        }
    }
}

#[test]
fn a_path_with_the_nul_character_is_unmatched() {
    for path in ["\0", "/\0", "/index\0.html", "/api/servers\0", "/api/frontend/latest\0"] {
        assert!(matches!(get_route("GET", path), Err(RoutingErr::Unmatched)), "{:?}", path);
        assert!(matches!(get_route("POST", path), Err(RoutingErr::Unmatched)), "{:?}", path);
        assert!(!is_free_of_nul(path));
    }
    assert!(is_free_of_nul(""));
    assert!(is_free_of_nul("/index.html"));
}

#[test]
fn paths_of_any_other_characters_are_routed() {
    for path in ["/\u{1}", "/caf\u{e9}.html", "/\u{7f}", "/\u{10ffff}/x", "/a b", "/%00"] {
        let m = route("GET", path);
        assert_eq!(m.route, PathRoutes::Frontend);
        assert_eq!(m.path.as_deref(), Some(&path[1..]));
    }
    let m = route("GET", "");
    assert_eq!(m.route, PathRoutes::Frontend);
    assert_eq!(m.path, None);
}

#[test]
fn white_space_around_an_encoding_is_dropped() {
    let white: Vec<char> = vec![
        '\u{9}', '\u{a}', '\u{b}', '\u{c}', '\u{d}', '\u{20}', '\u{85}', '\u{a0}', '\u{1680}', '\u{2000}',
        '\u{2001}', '\u{2002}', '\u{2003}', '\u{2004}', '\u{2005}', '\u{2006}', '\u{2007}', '\u{2008}',
        '\u{2009}', '\u{200a}', '\u{2028}', '\u{2029}', '\u{202f}', '\u{205f}', '\u{3000}',
    ];
    for c in 0..=0x10ffffu32 {
        if let Some(c) = char::from_u32(c) {
            assert_eq!(c.is_whitespace(), white.contains(&c), "{:?}", c);
        }
    }
    for c in white.iter() {
        assert_eq!(split_encodings(&format!("{c}{c}gzip{c},{c}b{c}r{c}")), vec!["gzip".to_string(), format!("b{c}r")]);
        assert_eq!(split_encodings(&format!("{c}")), vec![""]);
    }
    for c in ['\u{8}', '\u{e}', '\u{1f}', '\u{200b}', '\u{2060}', '\u{feff}', '\u{180e}', '_'] {
        assert_eq!(split_encodings(&format!("{c}gzip{c}")), vec![format!("{c}gzip{c}")]);
    }
}
