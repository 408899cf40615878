use vstd::prelude::*;

use crate::mime::mime_essence_of;
use crate::reply::{
    greeting_text, not_found_text, not_found_view, BodyView, ReplyView, STATUS_NOT_FOUND,
    STATUS_OK,
};
use crate::router::{reply_of, route_of, Method, RouteView};

verus! {

/// `GET /` is answered with status 200 and the body `Hello World`, whatever
/// the file system holds.
pub proof fn root_greets(opened: bool)
    ensures
        route_of(Method::Get, seq!['/']) == RouteView::Greeting,
        reply_of(route_of(Method::Get, seq!['/']), opened).status == STATUS_OK,
        reply_of(route_of(Method::Get, seq!['/']), opened).content_type is None,
        reply_of(route_of(Method::Get, seq!['/']), opened).body == BodyView::Bytes(greeting_text()),
{
}

/// `GET /p`, where `p` names a file that opens: status 200, the body streams
/// the file named by the path without its leading `/`, and the content type is
/// the media type guessed from that name, if any.
pub proof fn opened_file_is_served(path: Seq<char>)
    requires
        path.len() > 1,
        path[0] == '/',
    ensures
        route_of(Method::Get, path) == RouteView::File(path.drop_first()),
        reply_of(route_of(Method::Get, path), true) == (ReplyView {
            status: STATUS_OK,
            content_type: mime_essence_of(path.drop_first()),
            body: BodyView::FileStream,
        }),
{
}

/// `GET` of any path other than `/` whose file cannot be opened: status 404,
/// body `Not Found`.
pub proof fn missing_file_not_found(path: Seq<char>)
    requires
        path != seq!['/'],
    ensures
        reply_of(route_of(Method::Get, path), false) == not_found_view(),
        reply_of(route_of(Method::Get, path), false).status == STATUS_NOT_FOUND,
        reply_of(route_of(Method::Get, path), false).body == BodyView::Bytes(not_found_text()),
{
    if path.len() == 1 && path[0] == '/' {
        assert(path =~= seq!['/']);
    }
}

/// Any method other than GET gets status 404 and body `Not Found`, whatever
/// the path and whatever the file system holds.
pub proof fn other_methods_not_found(method: Method, path: Seq<char>, opened: bool)
    requires
        method != Method::Get,
    ensures
        route_of(method, path) == RouteView::NotFound,
        reply_of(route_of(method, path), opened) == not_found_view(),
{
}

} // verus!
