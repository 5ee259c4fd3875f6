//! HTTP response construction: content type by file extension and the
//! caching policy that keeps the SPA shell revalidated while letting
//! content-hashed assets be cached indefinitely.

use vstd::prelude::*;
use crate::{bytes_eq, copy_bytes, index_html, index_html_key};

verus! {

/// The mathematical content of an HTTP response: status code, the two
/// headers this library sets, and the exact body bytes.
pub ghost struct SpecResponse {
    pub status: int,
    pub content_type: Seq<char>,
    pub cache_control: Seq<char>,
    pub body: Seq<u8>,
}

/// An HTTP response as plain values: status code, `Content-Type` and
/// `Cache-Control` header values, and the body bytes. The surrounding
/// HTTP stack turns this into a wire response.
#[derive(Debug, PartialEq, Eq)]
pub struct HttpResponseData {
    pub status: u16,
    pub content_type: String,
    pub cache_control: String,
    pub body: Vec<u8>,
}

impl View for HttpResponseData {
    type V = SpecResponse;

    open spec fn view(&self) -> SpecResponse {
        SpecResponse {
            status: self.status as int,
            content_type: self.content_type@,
            cache_control: self.cache_control@,
            body: self.body@,
        }
    }
}

/// The MIME type that the extension table assigns to a path, with
/// `application/octet-stream` for unknown extensions.
pub uninterp spec fn mime_for(path: Seq<u8>) -> Seq<char>;

/// Relies on mime_guess::from_path(..).first_or_octet_stream(): the MIME
/// type is read from a fixed extension table, so it depends on the path
/// alone; paths with no known extension yield application/octet-stream.
#[verifier::external_body]
fn guess_mime(path: &Vec<u8>) -> (r: String)
    ensures
        r@ == mime_for(path@),
{
    let name = String::from_utf8_lossy(path.as_slice());
    let mime = mime_guess::from_path(name.as_ref()).first_or_octet_stream();
    let text: &str = mime.as_ref();
    text.to_owned()
}

/// The `Cache-Control` value for content-hashed assets: cacheable for a
/// year and immutable.
pub open spec fn long_cache_directive() -> Seq<char> {
    "public, max-age=31536000, immutable"@
}

/// The `Cache-Control` value for the SPA shell: revalidate on every load.
pub open spec fn no_cache_directive() -> Seq<char> {
    "no-cache"@
}

/// The bytes of the plain-text body `Not Found`.
pub open spec fn not_found_body() -> Seq<u8> {
    seq![78u8, 111u8, 116u8, 32u8, 70u8, 111u8, 117u8, 110u8, 100u8]
}

/// The response that serves a stored asset: status 200, MIME type by
/// extension, `no-cache` for the shell and the long-lived immutable
/// directive for every other key, and the stored bytes unmodified.
pub open spec fn spec_asset_response(key: Seq<u8>, data: Seq<u8>) -> SpecResponse {
    SpecResponse {
        status: 200,
        content_type: mime_for(key),
        cache_control: if key == index_html() {
            no_cache_directive()
        } else {
            long_cache_directive()
        },
        body: data,
    }
}

/// The response for a total miss: status 404 with a plain-text body and
/// no caching directive.
pub open spec fn spec_not_found_response() -> SpecResponse {
    SpecResponse {
        status: 404,
        content_type: "text/plain; charset=utf-8"@,
        cache_control: Seq::<char>::empty(),
        body: not_found_body(),
    }
}

/// Builds the response that serves the asset stored under `key`.
pub fn build_file_response(key: &Vec<u8>, data: &Vec<u8>) -> (r: HttpResponseData)
    ensures
        r@ == spec_asset_response(key@, data@),
{
    let content_type = guess_mime(key);
    let index_key = index_html_key();
    let cache_control = if bytes_eq(key, &index_key) {
        "no-cache".to_owned()
    } else {
        "public, max-age=31536000, immutable".to_owned()
    };
    HttpResponseData { status: 200, content_type, cache_control, body: copy_bytes(data) }
}

/// Builds the 404 response for a total miss.
pub fn not_found_response() -> (r: HttpResponseData)
    ensures
        r@ == spec_not_found_response(),
{
    let mut body: Vec<u8> = Vec::new();
    body.push(78u8);
    body.push(111u8);
    body.push(116u8);
    body.push(32u8);
    body.push(70u8);
    body.push(111u8);
    body.push(117u8);
    body.push(110u8);
    body.push(100u8);
    proof {
        assert(body@ =~= not_found_body());
    }
    HttpResponseData {
        status: 404,
        content_type: "text/plain; charset=utf-8".to_owned(),
        cache_control: String::new(),
        body,
    }
}

} // verus!
