use vstd::prelude::*;

use crate::mime::{guess_essence, mime_essence_of, opt_view};

verus! {

/// Status code of a successful response.
pub const STATUS_OK: u16 = 200;

/// Status code of the single error response.
pub const STATUS_NOT_FOUND: u16 = 404;

/// The ASCII bytes of a character sequence.
pub open spec fn ascii_bytes(s: Seq<char>) -> Seq<u8> {
    s.map_values(|c: char| c as u8)
}

/// Body of the greeting page at `/`.
pub open spec fn greeting_text() -> Seq<u8> {
    ascii_bytes("Hello World"@)
}

/// Body of every 404 response.
pub open spec fn not_found_text() -> Seq<u8> {
    ascii_bytes("Not Found"@)
}

/// Where the bytes of a response body come from.
pub enum Body {
    /// A fixed buffer, sent as it is.
    Bytes(Vec<u8>),
    /// The file that the request named, read and sent chunk by chunk, in order.
    FileStream,
}

/// A response, ready to be turned into a wire message.
pub struct Reply {
    pub status: u16,
    /// Value of the `Content-Type` header; `None` sets no header.
    pub content_type: Option<String>,
    pub body: Body,
}

pub enum BodyView {
    Bytes(Seq<u8>),
    FileStream,
}

pub struct ReplyView {
    pub status: u16,
    pub content_type: Option<Seq<char>>,
    pub body: BodyView,
}

impl View for Body {
    type V = BodyView;

    open spec fn view(&self) -> BodyView {
        match self {
            Body::Bytes(b) => BodyView::Bytes(b@),
            Body::FileStream => BodyView::FileStream,
        }
    }
}

impl View for Reply {
    type V = ReplyView;

    open spec fn view(&self) -> ReplyView {
        ReplyView { status: self.status, content_type: opt_view(self.content_type), body: self.body@ }
    }
}

/// A 200 response with a fixed body and no content type.
pub open spec fn static_view(body: Seq<u8>) -> ReplyView {
    ReplyView { status: STATUS_OK, content_type: None, body: BodyView::Bytes(body) }
}

/// The 404 response.
pub open spec fn not_found_view() -> ReplyView {
    ReplyView { status: STATUS_NOT_FOUND, content_type: None, body: BodyView::Bytes(not_found_text()) }
}

/// The response for a file request, given whether the file could be opened and
/// the guessed media type of its name.
pub open spec fn file_view(opened: bool, mime: Option<Seq<char>>) -> ReplyView {
    if opened {
        ReplyView { status: STATUS_OK, content_type: mime, body: BodyView::FileStream }
    } else {
        not_found_view()
    }
}

/// Copies an ASCII string literal into a byte buffer.
fn ascii_literal_bytes(s: &str) -> (r: Vec<u8>)
    requires
        vstd::utf8::is_ascii_chars(s@),
    ensures
        r@ == ascii_bytes(s@),
{
    let b = s.as_bytes();
    proof {
        vstd::utf8::is_ascii_chars_encode_utf8(s@);
    }
    let v = vstd::slice::slice_to_vec(b);
    assert(v@ =~= ascii_bytes(s@));
    v
}

/// The greeting bytes.
pub fn hello_world_body() -> (r: Vec<u8>)
    ensures
        r@ == greeting_text(),
{
    proof {
        reveal_strlit("Hello World");
    }
    ascii_literal_bytes("Hello World")
}

/// The bytes of the 404 body.
pub fn not_found_body() -> (r: Vec<u8>)
    ensures
        r@ == not_found_text(),
{
    proof {
        reveal_strlit("Not Found");
    }
    ascii_literal_bytes("Not Found")
}

/// A 200 response whose body is `body`, with no content type set.
pub fn static_page(body: &[u8]) -> (r: Reply)
    ensures
        r@ == static_view(body@),
{
    Reply { status: STATUS_OK, content_type: None, body: Body::Bytes(vstd::slice::slice_to_vec(body)) }
}

/// The 404 response, body `Not Found`.
pub fn not_found() -> (r: Reply)
    ensures
        r@ == not_found_view(),
{
    Reply { status: STATUS_NOT_FOUND, content_type: None, body: Body::Bytes(not_found_body()) }
}

/// The response for a file request once the media type has been guessed: the
/// streamed file with that type if the file opened, else 404.
pub fn file_reply(opened: bool, mime: Option<String>) -> (r: Reply)
    ensures
        r@ == file_view(opened, opt_view(mime)),
{
    if opened {
        Reply { status: STATUS_OK, content_type: mime, body: Body::FileStream }
    } else {
        not_found()
    }
}

/// The response for a request of file `filename`, where `opened` tells whether
/// opening it for reading succeeded. The media type is guessed from the name's
/// extension, and only for a file that opened.
pub fn file_serve(filename: &str, opened: bool) -> (r: Reply)
    ensures
        r@ == file_view(opened, mime_essence_of(filename@)),
{
    if opened {
        let mime = guess_essence(filename);
        file_reply(true, mime)
    } else {
        not_found()
    }
}

} // verus!
