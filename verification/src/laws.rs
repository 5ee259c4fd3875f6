//! The routing laws: what the resolution policy guarantees for whole
//! classes of request paths, proved once and for all stores.

use vstd::prelude::*;
use crate::index_html;
use crate::resolver::{spec_candidate, spec_handle, spec_strip_leading_slash};
use crate::response::{
    long_cache_directive, mime_for, no_cache_directive, not_found_body, spec_asset_response,
    spec_not_found_response,
};

verus! {

/// Every decoded path with no `.` in it resolves exactly as the empty
/// path does: both are served the SPA shell, with status 200 whenever the
/// shell is stored.
pub proof fn lemma_route_like_serves_shell(m: Map<Seq<u8>, Seq<u8>>, p: Seq<u8>)
    requires
        !p.contains(46u8),
    ensures
        spec_handle(m, p) == spec_handle(m, Seq::<u8>::empty()),
        m.contains_key(index_html()) ==> spec_handle(m, p).status == 200,
{
    assert(spec_candidate(p) == index_html());
    assert(spec_candidate(Seq::<u8>::empty()) == index_html());
}

/// The empty path and the root path `/` get identical responses.
pub proof fn lemma_empty_and_root_agree(m: Map<Seq<u8>, Seq<u8>>)
    ensures
        spec_handle(m, Seq::<u8>::empty()) == spec_handle(m, seq![47u8]),
{
    assert(spec_candidate(seq![47u8]) == index_html());
}

/// A stored key other than the shell, addressed as `/` followed by the
/// key, is served exactly: its own bytes, its extension's MIME type, and
/// the long-lived immutable caching directive.
pub proof fn lemma_stored_asset_served(m: Map<Seq<u8>, Seq<u8>>, k: Seq<u8>)
    requires
        m.contains_key(k),
        k != index_html(),
        k.contains(46u8),
    ensures
        spec_handle(m, seq![47u8] + k) == spec_asset_response(k, m[k]),
        spec_handle(m, seq![47u8] + k).status == 200,
        spec_handle(m, seq![47u8] + k).body == m[k],
        spec_handle(m, seq![47u8] + k).content_type == mime_for(k),
        spec_handle(m, seq![47u8] + k).cache_control == long_cache_directive(),
{
    let p = seq![47u8] + k;
    let i = choose|i: int| 0 <= i < k.len() && k[i] == 46u8;
    assert(p[i + 1] == 46u8);
    assert(p.contains(46u8));
    assert(p.drop_first() =~= k);
    assert(spec_candidate(p) == k);
}

/// Addressing the shell by name and by the empty path gives identical
/// responses, and both carry the `no-cache` directive.
pub proof fn lemma_shell_paths_no_cache(m: Map<Seq<u8>, Seq<u8>>)
    requires
        m.contains_key(index_html()),
    ensures
        spec_handle(m, seq![47u8] + index_html()) == spec_handle(m, Seq::<u8>::empty()),
        spec_handle(m, Seq::<u8>::empty()).cache_control == no_cache_directive(),
        spec_handle(m, seq![47u8] + index_html()).cache_control == no_cache_directive(),
{
    let p = seq![47u8] + index_html();
    assert(p[6] == 46u8);
    assert(p.contains(46u8));
    assert(p.drop_first() =~= index_html());
    assert(spec_candidate(p) == index_html());
}

/// A file-like path whose key is not stored degrades to the SPA shell
/// with status 200 whenever the shell is stored: an unknown asset name is
/// indistinguishable from a client-side route.
pub proof fn lemma_missing_file_serves_shell(m: Map<Seq<u8>, Seq<u8>>, p: Seq<u8>)
    requires
        p.contains(46u8),
        !m.contains_key(spec_strip_leading_slash(p)),
        m.contains_key(index_html()),
    ensures
        spec_handle(m, p) == spec_asset_response(index_html(), m[index_html()]),
        spec_handle(m, p).status == 200,
{
    let i = choose|i: int| 0 <= i < p.len() && p[i] == 46u8;
    if p.len() == 1 && p[0] == 47u8 {
        assert(i == 0);
        assert(false);
    }
    assert(spec_candidate(p) == spec_strip_leading_slash(p));
}

/// Without a stored shell, the empty path is a total miss: status 404
/// with the plain-text `Not Found` body.
pub proof fn lemma_no_shell_not_found(m: Map<Seq<u8>, Seq<u8>>)
    requires
        !m.contains_key(index_html()),
    ensures
        spec_handle(m, Seq::<u8>::empty()) == spec_not_found_response(),
        spec_handle(m, Seq::<u8>::empty()).status == 404,
        spec_handle(m, Seq::<u8>::empty()).body == not_found_body(),
{
    assert(spec_candidate(Seq::<u8>::empty()) == index_html());
}

} // verus!
