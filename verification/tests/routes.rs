use axum::body::Body;
use axum::http::{Request, StatusCode};
use axum::routing::get;
use axum::Router;
use leptos_chat_app::routes::{fallback, Fallback, Method, Route, RouteTable};
use tower::Service;

fn server_fn(name: &str) -> Route {
    Route::ServerFn(String::from(name))
}

#[test]
fn the_root_is_the_only_page_by_default() {
    assert_eq!(RouteTable::root_only(), RouteTable { pages: vec![String::from("/")] });
}

#[test]
fn api_paths_reach_the_named_server_function() {
    let table = RouteTable::root_only();
    assert_eq!(table.resolve(Method::Get, "/api/hello_world"), server_fn("hello_world"));
    assert_eq!(table.resolve(Method::Post, "/api/hello_world"), server_fn("hello_world"));
    assert_eq!(table.resolve(Method::Head, "/api/hello_world"), server_fn("hello_world"));
    assert_eq!(table.resolve(Method::Post, "/api/other"), server_fn("other"));
    assert_eq!(table.resolve(Method::Get, "/api/a/b/c"), server_fn("a/b/c"));
    assert_eq!(table.resolve(Method::Get, "/api//"), server_fn("/"));
    assert_eq!(table.resolve(Method::Get, "/api/x"), server_fn("x"));
}

#[test]
fn api_paths_refuse_other_methods() {
    let table = RouteTable::root_only();
    assert_eq!(table.resolve(Method::Other, "/api/hello_world"), Route::MethodNotAllowed);
}

#[test]
fn the_bare_api_prefix_is_no_server_function() {
    let table = RouteTable::root_only();
    assert_eq!(table.resolve(Method::Get, "/api/"), Route::Fallback);
    assert_eq!(table.resolve(Method::Get, "/api"), Route::Fallback);
    assert_eq!(table.resolve(Method::Post, "/apix/hello_world"), Route::Fallback);
    assert_eq!(table.resolve(Method::Post, "/API/hello_world"), Route::Fallback);
    assert_eq!(table.resolve(Method::Get, "api/hello_world"), Route::Fallback);
}

#[test]
fn the_root_path_is_rendered() {
    let table = RouteTable::root_only();
    assert_eq!(table.resolve(Method::Get, "/"), Route::Page);
    assert_eq!(table.resolve(Method::Head, "/"), Route::Page);
}

#[test]
fn pages_refuse_other_methods() {
    let table = RouteTable::root_only();
    assert_eq!(table.resolve(Method::Post, "/"), Route::MethodNotAllowed);
    assert_eq!(table.resolve(Method::Other, "/"), Route::MethodNotAllowed);
}

#[test]
fn undefined_paths_fall_through_to_not_found() {
    let table = RouteTable::root_only();
    for method in [Method::Get, Method::Head, Method::Post, Method::Other] {
        for path in ["/nothing", "/favicon.ico", "", "//", "/index.html", "/hello_world"] {
            assert_eq!(table.resolve(method, path), Route::Fallback);
        }
    }
    assert_eq!(fallback(false), Fallback::NotFound);
}

#[test]
fn the_fallback_serves_a_static_file_if_there_is_one() {
    assert_eq!(fallback(true), Fallback::StaticFile);
    assert_eq!(fallback(false), Fallback::NotFound);
}

#[test]
fn every_listed_page_is_rendered() {
    let table = RouteTable {
        pages: vec![String::from("/"), String::from("/about"), String::from("/caf\u{e9}")],
    };
    assert!(table.has_page("/"));
    assert!(table.has_page("/about"));
    assert!(table.has_page("/caf\u{e9}"));
    assert!(!table.has_page("/about/"));
    assert!(!table.has_page("/abou"));
    assert_eq!(table.resolve(Method::Get, "/about"), Route::Page);
    assert_eq!(table.resolve(Method::Get, "/caf\u{e9}"), Route::Page);
    assert_eq!(table.resolve(Method::Get, "/about/"), Route::Fallback);
    assert_eq!(table.resolve(Method::Post, "/about"), Route::MethodNotAllowed);
}

#[test]
fn a_table_without_pages_renders_nothing() {
    let table = RouteTable { pages: Vec::new() };
    assert!(!table.has_page("/"));
    assert_eq!(table.resolve(Method::Get, "/"), Route::Fallback);
    assert_eq!(table.resolve(Method::Get, "/api/hello_world"), server_fn("hello_world"));
}

#[test]
fn a_page_below_the_api_prefix_is_shadowed() {
    let table = RouteTable { pages: vec![String::from("/api/docs")] };
    assert_eq!(table.resolve(Method::Get, "/api/docs"), server_fn("docs"));
}

#[test]
fn names_are_cut_by_characters_not_bytes() {
    let table = RouteTable::root_only();
    assert_eq!(table.resolve(Method::Get, "/api/gr\u{fc}\u{df}e"), server_fn("gr\u{fc}\u{df}e"));
    assert_eq!(table.resolve(Method::Get, "/\u{e4}pi/x"), Route::Fallback);
}

fn describe(route: &Route) -> (StatusCode, String) {
    match route {
        Route::ServerFn(name) => (StatusCode::OK, format!("fn:{}", name)),
        Route::Page => (StatusCode::OK, String::from("page")),
        Route::MethodNotAllowed => (StatusCode::METHOD_NOT_ALLOWED, String::new()),
        Route::Fallback => (StatusCode::NOT_FOUND, String::from("fallback")),
    }
}

fn ask(router: &mut Router, method: &str, path: &str) -> (StatusCode, String) {
    let runtime = tokio::runtime::Builder::new_current_thread().build().unwrap();
    let request = Request::builder().method(method).uri(path).body(Body::empty()).unwrap();
    runtime.block_on(async {
        let response = router.call(request).await.unwrap();
        let status = response.status();
        let body = axum::body::to_bytes(response.into_body(), 1 << 16).await.unwrap();
        (status, String::from_utf8(body.to_vec()).unwrap())
    })
}

#[test]
fn the_table_agrees_with_a_router_built_from_the_same_routes() {
    let api = |request: Request<Body>| async move { format!("fn:{}", &request.uri().path()[5..]) };
    let mut router: Router = Router::new()
        .route("/api/*fn_name", get(api).post(api))
        .route("/", get(|| async { "page" }))
        .fallback(|| async { (StatusCode::NOT_FOUND, "fallback") });
    let table = RouteTable::root_only();
    let methods = [
        ("GET", Method::Get),
        ("POST", Method::Post),
        ("PUT", Method::Other),
        ("DELETE", Method::Other),
        ("PATCH", Method::Other),
    ];
    let paths = [
        "/",
        "/api",
        "/api/",
        "/api/hello_world",
        "/api/hello_world/",
        "/api/a/b",
        "/api//",
        "/apix",
        "/favicon.ico",
        "/about",
        "/pkg/app.js",
        "//",
    ];
    for (name, method) in methods {
        for path in paths {
            let expected = describe(&table.resolve(method, path));
            assert_eq!(ask(&mut router, name, path), expected, "{} {}", name, path);
        }
    }
    for path in paths {
        let (status, _) = describe(&table.resolve(Method::Head, path));
        assert_eq!(ask(&mut router, "HEAD", path).0, status, "HEAD {}", path);
    }
}
