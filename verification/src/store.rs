//! The asset store: an immutable mapping from a normalized relative path
//! (as bytes) to the raw content of the file stored under that path.

use vstd::prelude::*;
use crate::bytes_eq;

verus! {

/// One embedded file: a normalized relative path and its raw bytes.
pub struct Asset {
    pub path: Vec<u8>,
    pub data: Vec<u8>,
}

/// A read-only mapping from normalized path to file bytes, populated once
/// before requests are served and never mutated afterwards. Lookup is
/// exact-match and case-sensitive; there is no prefix or traversal search.
pub struct AssetStore {
    entries: Vec<Asset>,
}

/// The mapping that a sequence of assets denotes: later entries win,
/// though a well-formed store never holds the same path twice.
pub open spec fn map_of(entries: Seq<Asset>) -> Map<Seq<u8>, Seq<u8>>
    decreases entries.len(),
{
    if entries.len() == 0 {
        Map::empty()
    } else {
        map_of(entries.drop_last()).insert(entries.last().path@, entries.last().data@)
    }
}

impl AssetStore {
    /// The store seen as a mathematical map from path bytes to data bytes.
    pub closed spec fn view(&self) -> Map<Seq<u8>, Seq<u8>> {
        map_of(self.entries@)
    }

    /// Well-formedness: no path occurs twice.
    pub closed spec fn wf(&self) -> bool {
        forall|i: int, j: int|
            0 <= i < j < self.entries@.len() ==> self.entries@[i].path@ != self.entries@[j].path@
    }

    /// Creates an empty store.
    pub fn new() -> (r: AssetStore)
        ensures
            r.wf(),
            r@ == Map::<Seq<u8>, Seq<u8>>::empty(),
    {
        AssetStore { entries: Vec::new() }
    }

    /// Adds one asset under a path not yet present.
    pub fn insert(&mut self, path: Vec<u8>, data: Vec<u8>)
        requires
            old(self).wf(),
            !old(self)@.contains_key(path@),
        ensures
            final(self).wf(),
            final(self)@ == old(self)@.insert(path@, data@),
    {
        proof {
            lemma_map_of_domain(self.entries@);
        }
        let ghost old_entries = self.entries@;
        self.entries.push(Asset { path, data });
        proof {
            assert(self.entries@.drop_last() =~= old_entries);
        }
    }

    /// Returns `true` exactly when some asset is stored under `path`.
    pub fn contains(&self, path: &Vec<u8>) -> (r: bool)
        requires
            self.wf(),
        ensures
            r == self@.contains_key(path@),
    {
        self.get(path).is_some()
    }

    /// Exact-match lookup: the bytes stored under `path`, or `None` when no
    /// asset has that path. Never panics; no partial or prefix match.
    pub fn get(&self, path: &Vec<u8>) -> (r: Option<&Vec<u8>>)
        requires
            self.wf(),
        ensures
            match r {
                Some(data) => self@.contains_key(path@) && data@ == self@[path@],
                None => !self@.contains_key(path@),
            },
    {
        let n = self.entries.len();
        let mut i: usize = 0;
        while i < n
            invariant
                self.wf(),
                n == self.entries@.len(),
                0 <= i <= n,
                forall|j: int| 0 <= j < i ==> self.entries@[j].path@ != path@,
            decreases n - i,
        {
            if bytes_eq(&self.entries[i].path, path) {
                proof {
                    lemma_map_of_last_occurrence(self.entries@, i as int);
                }
                return Some(&self.entries[i].data);
            }
            i = i + 1;
        }
        proof {
            lemma_map_of_domain(self.entries@);
        }
        None
    }
}

/// A key is in the denoted map exactly when some entry carries it.
proof fn lemma_map_of_domain(entries: Seq<Asset>)
    ensures
        forall|k: Seq<u8>|
            #[trigger] map_of(entries).contains_key(k) <==> exists|i: int|
                0 <= i < entries.len() && entries[i].path@ == k,
    decreases entries.len(),
{
    if entries.len() > 0 {
        lemma_map_of_domain(entries.drop_last());
        assert forall|k: Seq<u8>| #[trigger] map_of(entries).contains_key(k) implies exists|i: int|
            0 <= i < entries.len() && entries[i].path@ == k by {
            if k == entries.last().path@ {
                assert(entries[entries.len() - 1].path@ == k);
            } else {
                assert(map_of(entries.drop_last()).contains_key(k));
                let i = choose|i: int| 0 <= i < entries.drop_last().len()
                    && entries.drop_last()[i].path@ == k;
                assert(entries[i].path@ == k);
            }
        }
        assert forall|k: Seq<u8>| (exists|i: int|
            0 <= i < entries.len() && entries[i].path@ == k) implies #[trigger] map_of(
            entries,
        ).contains_key(k) by {
            let i = choose|i: int| 0 <= i < entries.len() && entries[i].path@ == k;
            if i < entries.len() - 1 {
                assert(entries.drop_last()[i].path@ == k);
                assert(map_of(entries.drop_last()).contains_key(k));
            }
        }
    }
}

/// When no later entry carries the same path, the denoted map holds
/// exactly this entry's data under its path.
proof fn lemma_map_of_last_occurrence(entries: Seq<Asset>, i: int)
    requires
        0 <= i < entries.len(),
        forall|j: int| i < j < entries.len() ==> entries[j].path@ != entries[i].path@,
    ensures
        map_of(entries).contains_key(entries[i].path@),
        map_of(entries)[entries[i].path@] == entries[i].data@,
    decreases entries.len(),
{
    if i == entries.len() - 1 {
    } else {
        lemma_map_of_last_occurrence(entries.drop_last(), i);
    }
}

} // verus!
