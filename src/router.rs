use vstd::prelude::*;

use crate::mime::mime_essence_of;
use crate::reply::{
    file_serve, file_view, greeting_text, hello_world_body, not_found, not_found_view,
    static_page, static_view, Reply, ReplyView,
};

verus! {

/// The request methods that the router tells apart.
#[derive(Clone, Copy, Debug, PartialEq, Eq, Structural)]
pub enum Method {
    Get,
    /// Any method other than GET.
    Other,
}

/// What a request asks for.
pub enum Route {
    /// `GET /`: the fixed greeting page.
    Greeting,
    /// `GET /<name>`: the file `name`, relative to the working directory.
    File(String),
    /// Anything else.
    NotFound,
}

pub enum RouteView {
    Greeting,
    File(Seq<char>),
    NotFound,
}

impl View for Route {
    type V = RouteView;

    open spec fn view(&self) -> RouteView {
        match self {
            Route::Greeting => RouteView::Greeting,
            Route::File(name) => RouteView::File(name@),
            Route::NotFound => RouteView::NotFound,
        }
    }
}

/// The route of a request: GET of `/` is the greeting, GET of any other path
/// that starts with `/` is the file named by the rest of the path, as it
/// stands; everything else is not found.
pub open spec fn route_of(method: Method, path: Seq<char>) -> RouteView {
    if method == Method::Get && path.len() > 0 && path[0] == '/' {
        if path.len() == 1 {
            RouteView::Greeting
        } else {
            RouteView::File(path.drop_first())
        }
    } else {
        RouteView::NotFound
    }
}

/// The response for a route, where `opened` tells, for a file route, whether
/// the file opened for reading.
pub open spec fn reply_of(route: RouteView, opened: bool) -> ReplyView {
    match route {
        RouteView::Greeting => static_view(greeting_text()),
        RouteView::File(name) => file_view(opened, mime_essence_of(name)),
        RouteView::NotFound => not_found_view(),
    }
}

/// Decides what a request with this method and path asks for.
pub fn route(method: Method, path: &str) -> (r: Route)
    ensures
        r@ == route_of(method, path@),
{
    if method != Method::Get {
        return Route::NotFound;
    }
    let n = path.unicode_len();
    if n == 0 || path.get_char(0) != '/' {
        return Route::NotFound;
    }
    if n == 1 {
        Route::Greeting
    } else {
        let rest = path.substring_char(1, n);
        assert(rest@ =~= path@.drop_first());
        Route::File(rest.to_owned())
    }
}

/// The response for a route. For a file route the caller first tries to open
/// the file and passes in `opened` whether that succeeded; other routes ignore it.
pub fn respond(route: &Route, opened: bool) -> (r: Reply)
    ensures
        r@ == reply_of(route@, opened),
{
    match route {
        Route::Greeting => {
            let body = hello_world_body();
            static_page(body.as_slice())
        },
        Route::File(name) => file_serve(name.as_str(), opened),
        Route::NotFound => not_found(),
    }
}

} // verus!
