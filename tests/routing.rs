use static_serve::config::ServeOptions;
use static_serve::reply::{
    file_reply, file_serve, hello_world_body, not_found, not_found_body, static_page, Body, Reply,
    STATUS_NOT_FOUND, STATUS_OK,
};
use static_serve::router::{respond, route, Method, Route};

fn file_name(r: &Route) -> Option<String> {
    match r {
        Route::File(name) => Some(name.clone()),
        _ => None,
    }
}

fn bytes_of(reply: &Reply) -> Option<Vec<u8>> {
    match &reply.body {
        Body::Bytes(b) => Some(b.clone()),
        Body::FileStream => None,
    }
}

fn assert_not_found(reply: &Reply) {
    assert_eq!(reply.status, 404);
    assert_eq!(reply.content_type, None);
    assert_eq!(bytes_of(reply), Some(b"Not Found".to_vec()));
}

#[test]
fn root_get_greets() {
    let r = route(Method::Get, "/");
    assert!(matches!(r, Route::Greeting));
    for opened in [false, true] {
        let reply = respond(&r, opened);
        assert_eq!(reply.status, 200);
        assert_eq!(reply.content_type, None);
        assert_eq!(bytes_of(&reply), Some(b"Hello World".to_vec()));
    }
}

#[test]
fn index_html_served_with_html_type() {
    let r = route(Method::Get, "/index.html");
    assert_eq!(file_name(&r), Some("index.html".to_string()));
    let reply = respond(&r, true);
    assert_eq!(reply.status, 200);
    assert_eq!(reply.content_type, Some("text/html".to_string()));
    assert!(matches!(reply.body, Body::FileStream));
}

#[test]
fn missing_txt_not_found() {
    let r = route(Method::Get, "/missing.txt");
    assert_eq!(file_name(&r), Some("missing.txt".to_string()));
    assert_not_found(&respond(&r, false));
}

#[test]
fn other_methods_not_found_on_any_path() {
    for path in ["/", "/index.html", "/missing.txt", "", "x"] {
        let r = route(Method::Other, path);
        assert!(matches!(r, Route::NotFound));
        assert_not_found(&respond(&r, true));
        assert_not_found(&respond(&r, false));
    }
}

#[test]
fn nested_path_keeps_rest_and_guesses_css() {
    let r = route(Method::Get, "/dir/style.css");
    assert_eq!(file_name(&r), Some("dir/style.css".to_string()));
    let reply = respond(&r, true);
    assert_eq!(reply.status, 200);
    assert_eq!(reply.content_type, Some("text/css".to_string()));
}

#[test]
fn path_passes_through_unnormalised() {
    assert_eq!(file_name(&route(Method::Get, "/../secret")), Some("../secret".to_string()));
    assert_eq!(file_name(&route(Method::Get, "//")), Some("/".to_string()));
    assert_eq!(file_name(&route(Method::Get, "/ü.txt")), Some("ü.txt".to_string()));
}

#[test]
fn path_without_leading_slash_not_found() {
    assert!(matches!(route(Method::Get, ""), Route::NotFound));
    assert!(matches!(route(Method::Get, "index.html"), Route::NotFound));
    assert!(matches!(route(Method::Get, "*"), Route::NotFound));
}

#[test]
fn unknown_extension_sets_no_type() {
    let reply = file_serve("data.nosuchextension", true);
    assert_eq!(reply.status, 200);
    assert_eq!(reply.content_type, None);
    assert!(matches!(reply.body, Body::FileStream));
    assert_eq!(file_serve("README", true).content_type, None);
}

#[test]
fn file_serve_guesses_from_extension() {
    assert_eq!(file_serve("photo.png", true).content_type, Some("image/png".to_string()));
    assert_eq!(file_serve("notes.txt", true).content_type, Some("text/plain".to_string()));
    assert_not_found(&file_serve("photo.png", false));
}

#[test]
fn file_reply_uses_given_type() {
    let reply = file_reply(true, Some("a/b".to_string()));
    assert_eq!(reply.status, STATUS_OK);
    assert_eq!(reply.content_type, Some("a/b".to_string()));
    assert!(matches!(reply.body, Body::FileStream));
    assert_not_found(&file_reply(false, Some("a/b".to_string())));
    assert_eq!(file_reply(true, None).content_type, None);
}

#[test]
fn fixed_bodies_and_pages() {
    assert_eq!(hello_world_body(), b"Hello World".to_vec());
    assert_eq!(not_found_body(), b"Not Found".to_vec());
    let page = static_page(b"abc");
    assert_eq!(page.status, 200);
    assert_eq!(page.content_type, None);
    assert_eq!(bytes_of(&page), Some(b"abc".to_vec()));
    let nf = not_found();
    assert_eq!(nf.status, STATUS_NOT_FOUND);
    assert_not_found(&nf);
}

#[test]
fn repeated_requests_are_independent() {
    let a = route(Method::Get, "/a.html");
    let b = route(Method::Get, "/b.json");
    let ra = respond(&a, true);
    let rb = respond(&b, false);
    let ra2 = respond(&a, true);
    assert_eq!(ra.content_type, Some("text/html".to_string()));
    assert_eq!(ra2.content_type, ra.content_type);
    assert_not_found(&rb);
}

#[test]
fn options_hold_port() {
    let opts = ServeOptions { port: 8080 };
    assert_eq!(opts.port, 8080);
}
