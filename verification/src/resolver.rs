//! Path resolution: percent-decoding, normalization of a raw request path
//! into a candidate store key, the SPA fallback, and the full
//! request-to-response decision.

use vstd::prelude::*;
use vstd::string::StringSliceAdditionalSpecFns;
use crate::{bytes_eq, copy_bytes, index_html, index_html_key};
use crate::response::{
    HttpResponseData, SpecResponse, build_file_response, not_found_response, spec_asset_response,
    spec_not_found_response,
};
use crate::store::AssetStore;

verus! {

/// The UTF-8 bytes of the lossy percent-decoding of a raw path, given by
/// the raw path's UTF-8 bytes.
pub uninterp spec fn decoded_path_of(raw: Seq<u8>) -> Seq<u8>;

/// Relies on percent_encoding::percent_decode_str and its
/// decode_utf8_lossy: decoding replaces each `%` followed by two hex
/// digits, so it depends on the input bytes alone; an input holding no
/// `%` byte comes back unchanged. Invalid UTF-8 after decoding is
/// replaced, never an error.
#[verifier::external_body]
fn decode_path(raw: &str) -> (r: Vec<u8>)
    ensures
        r@ == decoded_path_of(raw.spec_bytes()),
        !raw.spec_bytes().contains(37u8) ==> r@ == raw.spec_bytes(),
{
    percent_encoding::percent_decode_str(raw).decode_utf8_lossy().into_owned().into_bytes()
}

/// A decoded path with its single leading slash, if any, removed. No
/// other normalization: `..` segments are kept as written, since lookup
/// is an exact match against a flat map with no directory semantics.
pub open spec fn spec_strip_leading_slash(p: Seq<u8>) -> Seq<u8> {
    if p.len() > 0 && p[0] == 47u8 {
        p.drop_first()
    } else {
        p
    }
}

/// The candidate store key for a decoded path: the shell key for the
/// empty or root path, the path itself (less one leading slash) when it
/// looks like a file, and the shell key for every dot-free client-side
/// route.
pub open spec fn spec_candidate(p: Seq<u8>) -> Seq<u8> {
    if p.len() == 0 || (p.len() == 1 && p[0] == 47u8) {
        index_html()
    } else if p.contains(46u8) {
        spec_strip_leading_slash(p)
    } else {
        index_html()
    }
}

/// The lookup policy: the candidate if stored, else the shell if stored,
/// else nothing.
pub open spec fn spec_get_or_index(m: Map<Seq<u8>, Seq<u8>>, candidate: Seq<u8>) -> Option<
    SpecResponse,
> {
    if m.contains_key(candidate) {
        Some(spec_asset_response(candidate, m[candidate]))
    } else if m.contains_key(index_html()) {
        Some(spec_asset_response(index_html(), m[index_html()]))
    } else {
        None
    }
}

/// The full decision for a decoded path: resolve a candidate, look it up
/// with the shell fallback, and fall back to the 404 response on a total
/// miss.
pub open spec fn spec_handle(m: Map<Seq<u8>, Seq<u8>>, decoded: Seq<u8>) -> SpecResponse {
    match spec_get_or_index(m, spec_candidate(decoded)) {
        Some(resp) => resp,
        None => spec_not_found_response(),
    }
}

/// Returns `true` exactly when `b` occurs in `v`.
fn contains_byte(v: &Vec<u8>, b: u8) -> (r: bool)
    ensures
        r == v@.contains(b),
{
    let mut i: usize = 0;
    while i < v.len()
        invariant
            0 <= i <= v.len(),
            forall|j: int| 0 <= j < i ==> v@[j] != b,
        decreases v.len() - i,
    {
        if v[i] == b {
            return true;
        }
        i = i + 1;
    }
    false
}

/// Computes the candidate store key for a decoded path.
pub fn candidate_key(decoded: &Vec<u8>) -> (r: Vec<u8>)
    ensures
        r@ == spec_candidate(decoded@),
{
    if decoded.len() == 0 {
        return index_html_key();
    }
    if decoded.len() == 1 && decoded[0] == 47u8 {
        return index_html_key();
    }
    if contains_byte(decoded, 46u8) {
        if decoded[0] == 47u8 {
            let mut r: Vec<u8> = Vec::new();
            let mut i: usize = 1;
            while i < decoded.len()
                invariant
                    1 <= i <= decoded@.len(),
                    r@ == decoded@.subrange(1, i as int),
                decreases decoded.len() - i,
            {
                r.push(decoded[i]);
                i = i + 1;
                proof {
                    assert(r@ =~= decoded@.subrange(1, i as int));
                }
            }
            proof {
                assert(r@ =~= decoded@.drop_first());
            }
            r
        } else {
            copy_bytes(decoded)
        }
    } else {
        index_html_key()
    }
}

/// Looks the candidate up, falling back to the SPA shell on a miss;
/// `None` only when neither the candidate nor the shell is stored.
pub fn get_asset_or_index(store: &AssetStore, candidate: &Vec<u8>) -> (r: Option<
    HttpResponseData,
>)
    requires
        store.wf(),
    ensures
        match r {
            Some(resp) => spec_get_or_index(store@, candidate@) == Some(resp@),
            None => spec_get_or_index(store@, candidate@) is None,
        },
{
    if let Some(data) = store.get(candidate) {
        return Some(build_file_response(candidate, data));
    }
    let index_key = index_html_key();
    if let Some(index_data) = store.get(&index_key) {
        return Some(build_file_response(&index_key, index_data));
    }
    None
}

/// Serves an already-decoded path: normalization, lookup with SPA
/// fallback, and response construction, exactly as `spec_handle` states.
pub fn resolve_decoded(store: &AssetStore, decoded: &Vec<u8>) -> (r: HttpResponseData)
    requires
        store.wf(),
    ensures
        r@ == spec_handle(store@, decoded@),
{
    let candidate = candidate_key(decoded);
    match get_asset_or_index(store, &candidate) {
        Some(resp) => resp,
        None => not_found_response(),
    }
}

/// Serves a raw, percent-encoded request path: decodes it lossily, then
/// resolves the decoded path against the store. A raw path holding no
/// `%` byte is served as written.
pub fn handle(store: &AssetStore, raw_path: &str) -> (r: HttpResponseData)
    requires
        store.wf(),
    ensures
        r@ == spec_handle(store@, decoded_path_of(raw_path.spec_bytes())),
        !raw_path.spec_bytes().contains(37u8) ==> r@ == spec_handle(
            store@,
            raw_path.spec_bytes(),
        ),
{
    let decoded = decode_path(raw_path);
    resolve_decoded(store, &decoded)
}

} // verus!
