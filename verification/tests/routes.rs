use demo_server::routes::{match_route, AssetRequest, Method, RouteTarget};

#[test]
fn root_route_serves_landing_page() {
    match match_route(Method::Get, "/") {
        Some(RouteTarget::Asset(AssetRequest::Root)) => {}
        other => panic!("unexpected match: {:?}", other),
    }
}

#[test]
fn health_route_matches_get_only() {
    assert!(matches!(match_route(Method::Get, "/health"), Some(RouteTarget::Health)));
    assert!(match_route(Method::Post, "/health").is_none());
}

#[test]
fn echo_routes_match_post_only() {
    assert!(matches!(match_route(Method::Post, "/api/echo"), Some(RouteTarget::Echo)));
    assert!(matches!(match_route(Method::Post, "/echo"), Some(RouteTarget::EchoText)));
    assert!(match_route(Method::Get, "/api/echo").is_none());
    assert!(match_route(Method::Get, "/echo").is_none());
}

#[test]
fn web_route_captures_filename() {
    match match_route(Method::Get, "/web/app.js") {
        Some(RouteTarget::Asset(AssetRequest::Generic(f))) => assert_eq!(f, "app.js"),
        other => panic!("unexpected match: {:?}", other),
    }
}

#[test]
fn css_route_captures_filename() {
    match match_route(Method::Get, "/css/style.css") {
        Some(RouteTarget::Asset(AssetRequest::Css(f))) => assert_eq!(f, "style.css"),
        other => panic!("unexpected match: {:?}", other),
    }
}

#[test]
fn js_route_captures_filename() {
    match match_route(Method::Get, "/js/main.js") {
        Some(RouteTarget::Asset(AssetRequest::Js(f))) => assert_eq!(f, "main.js"),
        other => panic!("unexpected match: {:?}", other),
    }
}

#[test]
fn capture_refuses_nested_slashes() {
    assert!(match_route(Method::Get, "/web/a/b.js").is_none());
    assert!(match_route(Method::Get, "/css/sub/style.css").is_none());
    assert!(match_route(Method::Get, "/js/x/y").is_none());
}

#[test]
fn capture_refuses_empty_filename() {
    assert!(match_route(Method::Get, "/web/").is_none());
    assert!(match_route(Method::Get, "/css/").is_none());
    assert!(match_route(Method::Get, "/js/").is_none());
}

#[test]
fn unknown_paths_do_not_match() {
    assert!(match_route(Method::Get, "/nope").is_none());
    assert!(match_route(Method::Get, "").is_none());
    assert!(match_route(Method::Post, "/").is_none());
    assert!(match_route(Method::Get, "/healthz").is_none());
    assert!(match_route(Method::Get, "/webx/app.js").is_none());
}

#[test]
fn capture_keeps_dotted_and_unicode_names() {
    match match_route(Method::Get, "/web/café.txt") {
        Some(RouteTarget::Asset(AssetRequest::Generic(f))) => assert_eq!(f, "café.txt"),
        other => panic!("unexpected match: {:?}", other),
    }
    match match_route(Method::Get, "/web/..") {
        Some(RouteTarget::Asset(AssetRequest::Generic(f))) => assert_eq!(f, ".."),
        other => panic!("unexpected match: {:?}", other),
    }
}
