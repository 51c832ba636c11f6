//! Behavioural tests for the site's routing, rendering and responses.

use hello_site::response::asset_response;
use hello_site::response::content_type_for;
use hello_site::response::hello_response;
use hello_site::response::not_found_response;
use hello_site::router::route;
use hello_site::router::Route;
use hello_site::router::RouterConfig;
use hello_site::server::handle;
use hello_site::server::index_response;
use hello_site::server::PageContext;
use hello_site::template::render_template;
use hello_site::template::TemplateError;

const RENDER_ERROR_PREFIX: &str = "Failed to render template. Error: ";

fn v(s: &str) -> Vec<u8> {
    s.as_bytes().to_vec()
}

#[test]
fn render_substitutes_name() {
    let out = render_template(&v("Hello, {{ name }}!"), &v("world"));
    assert_eq!(out, Ok(v("Hello, world!")));
}

#[test]
fn render_without_spaces_in_tag() {
    let out = render_template(&v("<h1>{{name}}</h1>"), &v("world"));
    assert_eq!(out, Ok(v("<h1>world</h1>")));
}

#[test]
fn render_copies_plain_text() {
    let out = render_template(&v("plain text, one { and one }"), &v("world"));
    assert_eq!(out, Ok(v("plain text, one { and one }")));
}

#[test]
fn render_substitutes_every_tag() {
    let out = render_template(&v("{{name}} and {{ name }}"), &v("w"));
    assert_eq!(out, Ok(v("w and w")));
}

#[test]
fn render_rejects_unclosed_tag() {
    let out = render_template(&v("Hello, {{ name"), &v("world"));
    assert_eq!(out, Err(TemplateError::UnclosedTag));
}

#[test]
fn render_rejects_unknown_field() {
    let out = render_template(&v("Hello, {{ title }}!"), &v("world"));
    assert_eq!(out, Err(TemplateError::UnknownField));
}

#[test]
fn route_index() {
    let config = RouterConfig::with_hello();
    let r = route(&config, &v("GET"), &v("/"));
    assert!(matches!(r, Route::Index));
}

#[test]
fn route_api_hello_when_exposed() {
    let config = RouterConfig::with_hello();
    let r = route(&config, &v("GET"), &v("/api/hello"));
    assert!(matches!(r, Route::ApiHello));
}

#[test]
fn route_api_hello_absent_in_smaller_set() {
    let config = RouterConfig::without_hello();
    let r = route(&config, &v("GET"), &v("/api/hello"));
    assert!(matches!(r, Route::NotFound));
}

#[test]
fn route_asset_under_public() {
    let config = RouterConfig::with_hello();
    let r = route(&config, &v("GET"), &v("/public/logo.png"));
    match r {
        Route::Asset { rel } => assert_eq!(rel, v("logo.png")),
        other => panic!("expected an asset route, got {:?}", other),
    }
}

#[test]
fn route_asset_under_assets() {
    let config = RouterConfig::without_hello();
    let r = route(&config, &v("GET"), &v("/assets/css/site.css"));
    match r {
        Route::Asset { rel } => assert_eq!(rel, v("css/site.css")),
        other => panic!("expected an asset route, got {:?}", other),
    }
}

#[test]
fn route_rejects_undefined_paths() {
    let config = RouterConfig::with_hello();
    assert!(matches!(route(&config, &v("GET"), &v("/nope")), Route::NotFound));
    assert!(matches!(route(&config, &v("GET"), &v("/public")), Route::NotFound));
    assert!(matches!(route(&config, &v("GET"), &v("/public/")), Route::NotFound));
    assert!(matches!(route(&config, &v("GET"), &v("/publicity/x")), Route::NotFound));
    assert!(matches!(route(&config, &v("GET"), &v("/assets/x")), Route::NotFound));
}

#[test]
fn route_rejects_non_get_methods() {
    let config = RouterConfig::with_hello();
    assert!(matches!(route(&config, &v("POST"), &v("/")), Route::NotFound));
    assert!(matches!(route(&config, &v("PUT"), &v("/public/logo.png")), Route::NotFound));
}

#[test]
fn route_rejects_parent_segments() {
    let config = RouterConfig::with_hello();
    assert!(matches!(route(&config, &v("GET"), &v("/public/../secret")), Route::NotFound));
    assert!(matches!(route(&config, &v("GET"), &v("/public/a/../b")), Route::NotFound));
    assert!(matches!(route(&config, &v("GET"), &v("/public/..")), Route::NotFound));
    // A name that merely contains dots is served.
    assert!(matches!(route(&config, &v("GET"), &v("/public/a..b")), Route::Asset { .. }));
}

#[test]
fn hello_body_is_fixed() {
    let r = hello_response();
    assert_eq!(r.status, 200);
    assert_eq!(r.content_type, v("text/plain; charset=utf-8"));
    assert_eq!(r.body, v("Hello!"));
}

#[test]
fn not_found_is_empty() {
    let r = not_found_response();
    assert_eq!(r.status, 404);
    assert!(r.body.is_empty());
}

#[test]
fn asset_found_returns_exact_bytes() {
    let bytes: Vec<u8> = vec![1, 2, 3, 254, 255];
    let r = asset_response(&v("logo.png"), Some(bytes.clone()));
    assert_eq!(r.status, 200);
    assert_eq!(r.body, bytes);
    assert_eq!(r.content_type, v("image/png"));
}

#[test]
fn asset_missing_is_not_found() {
    let r = asset_response(&v("missing.png"), None);
    assert_eq!(r.status, 404);
    assert!(r.body.is_empty());
}

#[test]
fn content_type_follows_extension() {
    assert_eq!(content_type_for(&v("page.html")), v("text/html; charset=utf-8"));
    assert_eq!(content_type_for(&v("site.css")), v("text/css"));
    assert_eq!(content_type_for(&v("app.js")), v("text/javascript"));
    assert_eq!(content_type_for(&v("a/b/logo.png")), v("image/png"));
    assert_eq!(content_type_for(&v("photo.jpg")), v("image/jpeg"));
    assert_eq!(content_type_for(&v("photo.jpeg")), v("image/jpeg"));
    assert_eq!(content_type_for(&v("icon.svg")), v("image/svg+xml"));
    assert_eq!(content_type_for(&v("notes.txt")), v("text/plain; charset=utf-8"));
    assert_eq!(content_type_for(&v("archive.tar.gz")), v("application/octet-stream"));
    assert_eq!(content_type_for(&v("noext")), v("application/octet-stream"));
    // The dot must sit in the last segment.
    assert_eq!(content_type_for(&v("a.png/raw")), v("application/octet-stream"));
}

#[test]
fn index_renders_with_name() {
    let ctx = PageContext::new();
    let template = v("<html><body>Hello, {{ name }}!</body></html>");
    let r = index_response(&ctx, Some(&template));
    assert_eq!(r.status, 200);
    assert_eq!(r.content_type, v("text/html; charset=utf-8"));
    assert_eq!(r.body, v("<html><body>Hello, world!</body></html>"));
}

#[test]
fn index_without_template_is_a_render_error() {
    let ctx = PageContext::new();
    let r = index_response(&ctx, None);
    assert_eq!(r.status, 500);
    assert!(r.body.starts_with(RENDER_ERROR_PREFIX.as_bytes()));
}

#[test]
fn index_with_malformed_template_is_a_render_error() {
    let ctx = PageContext::new();
    let unclosed = v("Hello, {{ name");
    let r = index_response(&ctx, Some(&unclosed));
    assert_eq!(r.status, 500);
    assert!(r.body.starts_with(RENDER_ERROR_PREFIX.as_bytes()));
    let unknown = v("Hello, {{ title }}!");
    let r2 = index_response(&ctx, Some(&unknown));
    assert_eq!(r2.status, 500);
    assert!(r2.body.starts_with(RENDER_ERROR_PREFIX.as_bytes()));
}

#[test]
fn served_site_scenario() {
    let config = RouterConfig::with_hello();
    let template = v("<p>hello {{ name }}</p>");
    let logo: Vec<u8> = vec![137, 80, 78, 71, 13, 10, 26, 10, 0, 1];
    assert_eq!(logo.len(), 10);

    // GET /public/logo.png: 200 with those exact ten bytes.
    let r = match route(&config, &v("GET"), &v("/public/logo.png")) {
        Route::Asset { rel } => {
            assert_eq!(rel, v("logo.png"));
            handle(
                &config,
                &v("GET"),
                &v("/public/logo.png"),
                Some(&template),
                Some(logo.clone()),
            )
        },
        other => panic!("expected an asset route, got {:?}", other),
    };
    assert_eq!(r.status, 200);
    assert_eq!(r.body, logo);

    // GET /public/missing.png: 404.
    let r = handle(&config, &v("GET"), &v("/public/missing.png"), Some(&template), None);
    assert_eq!(r.status, 404);

    // GET /: 200 with a body that shows "world".
    let r = handle(&config, &v("GET"), &v("/"), Some(&template), None);
    assert_eq!(r.status, 200);
    assert_eq!(r.body, v("<p>hello world</p>"));
    assert!(r.body.windows(5).any(|w| w == b"world"));

    // GET /api/hello: 200 with body Hello!.
    let r = handle(&config, &v("GET"), &v("/api/hello"), Some(&template), None);
    assert_eq!(r.status, 200);
    assert_eq!(r.body, v("Hello!"));

    // GET /nope: 404.
    let r = handle(&config, &v("GET"), &v("/nope"), Some(&template), None);
    assert_eq!(r.status, 404);
}
