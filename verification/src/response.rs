//! HTTP responses the site can send, and how each is built.

use vstd::prelude::*;

use crate::text::ascii_bytes;
use crate::text::bytes_is;
use crate::text::literal_bytes;
use crate::text::tail_bytes;

verus! {

/// One HTTP response: status, `Content-Type` header value and body.
#[derive(Debug)]
pub struct HttpResponse {
    /// The HTTP status code.
    pub status: u16,
    /// The value of the `Content-Type` header.
    pub content_type: Vec<u8>,
    /// The response body.
    pub body: Vec<u8>,
}

/// The `Content-Type` of a rendered page.
pub open spec fn html_type() -> Seq<u8> {
    ascii_bytes("text/html; charset=utf-8"@)
}

/// The `Content-Type` of plain-text bodies.
pub open spec fn plain_type() -> Seq<u8> {
    ascii_bytes("text/plain; charset=utf-8"@)
}

/// Where the extension of `rel` begins, scanning its last path segment
/// backward from position `i`; `None` when that segment has no dot.
pub open spec fn ext_start(rel: Seq<u8>, i: int) -> Option<int>
    decreases i,
{
    if i <= 0 || i > rel.len() {
        None
    } else if rel[i - 1] == '.' as u8 {
        Some(i)
    } else if rel[i - 1] == '/' as u8 {
        None
    } else {
        ext_start(rel, i - 1)
    }
}

/// The extension of `rel`: the bytes after the last dot of its last segment.
pub open spec fn ext_of(rel: Seq<u8>) -> Seq<u8> {
    match ext_start(rel, rel.len() as int) {
        Some(s) => rel.subrange(s, rel.len() as int),
        None => seq![],
    }
}

/// The `Content-Type` inferred from a file's extension.
pub open spec fn content_type_of(rel: Seq<u8>) -> Seq<u8> {
    if ext_of(rel) == ascii_bytes("html"@) {
        html_type()
    } else if ext_of(rel) == ascii_bytes("css"@) {
        ascii_bytes("text/css"@)
    } else if ext_of(rel) == ascii_bytes("js"@) {
        ascii_bytes("text/javascript"@)
    } else if ext_of(rel) == ascii_bytes("png"@) {
        ascii_bytes("image/png"@)
    } else if ext_of(rel) == ascii_bytes("jpg"@) || ext_of(rel) == ascii_bytes("jpeg"@) {
        ascii_bytes("image/jpeg"@)
    } else if ext_of(rel) == ascii_bytes("svg"@) {
        ascii_bytes("image/svg+xml"@)
    } else if ext_of(rel) == ascii_bytes("txt"@) {
        plain_type()
    } else {
        ascii_bytes("application/octet-stream"@)
    }
}

/// The extension of `rel`, copied out; empty when there is none.
fn extension_of(rel: &Vec<u8>) -> (r: Vec<u8>)
    ensures
        r@ == ext_of(rel@),
{
    let mut i: usize = rel.len();
    loop
        invariant
            i <= rel@.len(),
            ext_start(rel@, rel@.len() as int) == ext_start(rel@, i as int),
        decreases i,
    {
        if i == 0 {
            return Vec::new();
        }
        let c: u8 = rel[i - 1];
        if c == '.' as u8 {
            return tail_bytes(rel, i);
        }
        if c == '/' as u8 {
            return Vec::new();
        }
        i = i - 1;
    }
}

/// Computes the `Content-Type` sent along with the asset at `rel`.
pub fn content_type_for(rel: &Vec<u8>) -> (r: Vec<u8>)
    ensures
        r@ == content_type_of(rel@),
{
    proof {
        reveal_strlit("html");
        reveal_strlit("css");
        reveal_strlit("js");
        reveal_strlit("png");
        reveal_strlit("jpg");
        reveal_strlit("jpeg");
        reveal_strlit("svg");
        reveal_strlit("txt");
        reveal_strlit("text/html; charset=utf-8");
        reveal_strlit("text/css");
        reveal_strlit("text/javascript");
        reveal_strlit("image/png");
        reveal_strlit("image/jpeg");
        reveal_strlit("image/svg+xml");
        reveal_strlit("text/plain; charset=utf-8");
        reveal_strlit("application/octet-stream");
    }
    let ext = extension_of(rel);
    if bytes_is(&ext, "html") {
        literal_bytes("text/html; charset=utf-8")
    } else if bytes_is(&ext, "css") {
        literal_bytes("text/css")
    } else if bytes_is(&ext, "js") {
        literal_bytes("text/javascript")
    } else if bytes_is(&ext, "png") {
        literal_bytes("image/png")
    } else if bytes_is(&ext, "jpg") || bytes_is(&ext, "jpeg") {
        literal_bytes("image/jpeg")
    } else if bytes_is(&ext, "svg") {
        literal_bytes("image/svg+xml")
    } else if bytes_is(&ext, "txt") {
        literal_bytes("text/plain; charset=utf-8")
    } else {
        literal_bytes("application/octet-stream")
    }
}

/// The fixed greeting: 200 with the plain-text body `Hello!`.
pub fn hello_response() -> (r: HttpResponse)
    ensures
        r.status == 200,
        r.content_type@ == plain_type(),
        r.body@ == ascii_bytes("Hello!"@),
{
    proof {
        reveal_strlit("text/plain; charset=utf-8");
        reveal_strlit("Hello!");
    }
    HttpResponse {
        status: 200,
        content_type: literal_bytes("text/plain; charset=utf-8"),
        body: literal_bytes("Hello!"),
    }
}

/// The default not-found answer: 404 with an empty body.
pub fn not_found_response() -> (r: HttpResponse)
    ensures
        r.status == 404,
        r.content_type@ == plain_type(),
        r.body@.len() == 0,
{
    proof {
        reveal_strlit("text/plain; charset=utf-8");
    }
    HttpResponse {
        status: 404,
        content_type: literal_bytes("text/plain; charset=utf-8"),
        body: Vec::new(),
    }
}

/// The answer to a static-asset request: the file's bytes verbatim when the
/// file was found, the not-found answer otherwise.
pub fn asset_response(rel: &Vec<u8>, file: Option<Vec<u8>>) -> (r: HttpResponse)
    ensures
        file matches Some(bytes) ==> r.status == 200 && r.body@ == bytes@ && r.content_type@
            == content_type_of(rel@),
        file is None ==> r.status == 404 && r.content_type@ == plain_type() && r.body@.len() == 0,
{
    match file {
        Some(bytes) => HttpResponse {
            status: 200,
            content_type: content_type_for(rel),
            body: bytes,
        },
        None => not_found_response(),
    }
}

} // verus!
