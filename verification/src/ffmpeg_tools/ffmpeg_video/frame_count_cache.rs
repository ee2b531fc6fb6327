//! A cache of video frame counts, keyed by video file path and kept only as
//! long as the file is not modified.

use vstd::prelude::*;

use super::seek_info::bytes_eq;

verus! {

/// Info about a path.
#[derive(Debug, Clone, PartialEq, Eq)]
pub struct PathInfo {
    /// The bytes of the canonicalized path.
    pub path: Vec<u8>,
    /// The last modification time of the object at the path, in nanoseconds
    /// relative to the UNIX epoch (negative before it).
    pub modified: i128,
}

/// One cached frame count.
#[derive(Debug)]
struct CacheEntry {
    path: Vec<u8>,
    frames: usize,
    modified: i128,
}

/// The frame counts of video files, each with the modification time of the
/// file it was counted from.
#[derive(Debug)]
pub struct FrameCountCache {
    entries: Vec<CacheEntry>,
}

/// Whether some entry of `s` is for `path`.
spec fn has_path(s: Seq<CacheEntry>, path: Seq<u8>) -> bool {
    exists|i: int| 0 <= i < s.len() && (#[trigger] s[i]).path@ == path
}

/// The index of an entry of `s` for `path` (meaningful where there is one).
spec fn index_of(s: Seq<CacheEntry>, path: Seq<u8>) -> int {
    choose|i: int| 0 <= i < s.len() && (#[trigger] s[i]).path@ == path
}

/// No two entries are for the same path.
spec fn paths_distinct(s: Seq<CacheEntry>) -> bool {
    forall|i: int, j: int|
        0 <= i < s.len() && 0 <= j < s.len() && i != j ==> (#[trigger] s[i]).path@ != (
        #[trigger] s[j]).path@
}

/// The cache as a map from path to (frame count, modification time).
spec fn entries_map(s: Seq<CacheEntry>) -> Map<Seq<u8>, (usize, i128)> {
    Map::new(
        |path: Seq<u8>| has_path(s, path),
        |path: Seq<u8>| (s[index_of(s, path)].frames, s[index_of(s, path)].modified),
    )
}

/// In a list of distinct paths, the entry for a path is the one at its index.
proof fn lemma_index_of(s: Seq<CacheEntry>, i: int)
    requires
        paths_distinct(s),
        0 <= i < s.len(),
    ensures
        has_path(s, s[i].path@),
        index_of(s, s[i].path@) == i,
{
    let p = s[i].path@;
    assert(has_path(s, p));
    let j = index_of(s, p);
    assert(0 <= j < s.len() && s[j].path@ == p);
}

impl View for FrameCountCache {
    type V = Map<Seq<u8>, (usize, i128)>;

    /// Each cached path with its frame count and modification time.
    closed spec fn view(&self) -> Map<Seq<u8>, (usize, i128)> {
        entries_map(self.entries@)
    }
}

impl FrameCountCache {
    #[verifier::type_invariant]
    spec fn well_formed(&self) -> bool {
        &&& paths_distinct(self.entries@)
        &&& forall|i: int| 0 <= i < self.entries@.len() ==> (#[trigger] self.entries@[i]).frames > 0
    }

    /// An empty cache.
    pub fn new() -> (r: Self)
        ensures
            r@ == Map::<Seq<u8>, (usize, i128)>::empty(),
    {
        let r = FrameCountCache { entries: Vec::new() };
        assert(r@ =~= Map::<Seq<u8>, (usize, i128)>::empty());
        r
    }

    /// The index of the entry for `path`, if there is one.
    fn find(&self, path: &[u8]) -> (r: Option<usize>)
        ensures
            r is Some <==> self@.contains_key(path@),
            r matches Some(i) ==> i < self.entries@.len() && self.entries@[i as int].path@ == path@
                && index_of(self.entries@, path@) == i,
    {
        proof {
            use_type_invariant(self);
        }
        let mut k: usize = 0;
        while k < self.entries.len()
            invariant
                k <= self.entries@.len(),
                paths_distinct(self.entries@),
                forall|i: int| 0 <= i < k ==> (#[trigger] self.entries@[i]).path@ != path@,
            decreases self.entries@.len() - k,
        {
            if bytes_eq(self.entries[k].path.as_slice(), path) {
                proof {
                    lemma_index_of(self.entries@, k as int);
                }
                return Some(k);
            }
            k = k + 1;
        }
        None
    }

    /// The frame count of a video file if it was cached with [Self::insert]
    /// and the file has not been modified since. An entry for a file that has
    /// been modified since is dropped.
    pub fn get(&mut self, path_info: &PathInfo) -> (r: Option<usize>)
        ensures
            r == cached_count(old(self)@, path_info.path@, path_info.modified),
            r matches Some(n) ==> n > 0,
            final(self)@ == after_get(old(self)@, path_info.path@, path_info.modified),
    {
        proof {
            use_type_invariant(&*self);
        }
        match self.find(path_info.path.as_slice()) {
            None => None,
            Some(i) => {
                if self.entries[i].modified != path_info.modified {
                    let ghost s = self.entries@;
                    let ghost p = path_info.path@;
                    let mut entries: Vec<CacheEntry> = Vec::new();
                    std::mem::swap(&mut entries, &mut self.entries);
                    entries.remove(i);
                    proof {
                        let t = entries@;
                        assert(t =~= s.remove(i as int));
                        assert(paths_distinct(t)) by {
                            assert forall|a: int, b: int|
                                0 <= a < t.len() && 0 <= b < t.len() && a != b implies (
                            #[trigger] t[a]).path@ != (#[trigger] t[b]).path@ by {
                                let a2 = if a < i { a } else { a + 1 };
                                let b2 = if b < i { b } else { b + 1 };
                                assert(t[a] == s[a2] && t[b] == s[b2]);
                            }
                        }
                        lemma_removed_map(s, i as int);
                    }
                    self.entries = entries;
                    None
                } else {
                    Some(self.entries[i].frames)
                }
            },
        }
    }

    /// Cache the frame count of a video file.
    pub fn insert(&mut self, path: PathInfo, frames: usize)
        requires
            frames > 0,
        ensures
            final(self)@ == old(self)@.insert(path.path@, (frames, path.modified)),
    {
        proof {
            use_type_invariant(&*self);
        }
        let ghost s = self.entries@;
        let ghost p = path.path@;
        let found = self.find(path.path.as_slice());
        let mut entries: Vec<CacheEntry> = Vec::new();
        std::mem::swap(&mut entries, &mut self.entries);
        let entry = CacheEntry { path: path.path, frames, modified: path.modified };
        match found {
            Some(i) => {
                entries.set(i, entry);
                proof {
                    let t = entries@;
                    assert(paths_distinct(t)) by {
                        assert forall|a: int, b: int|
                            0 <= a < t.len() && 0 <= b < t.len() && a != b implies (
                        #[trigger] t[a]).path@ != (#[trigger] t[b]).path@ by {
                            assert(t[a].path@ == s[a].path@ && t[b].path@ == s[b].path@);
                        }
                    }
                    assert forall|q: Seq<u8>| has_path(t, q) <==> has_path(s, q) by {
                        if has_path(t, q) {
                            let j = index_of(t, q);
                            assert(s[j].path@ == q);
                        }
                        if has_path(s, q) {
                            let j = index_of(s, q);
                            assert(t[j].path@ == q);
                        }
                    }
                    assert forall|q: Seq<u8>| #[trigger] has_path(t, q) && q != p implies index_of(
                        t,
                        q,
                    ) == index_of(s, q) && t[index_of(t, q)] == s[index_of(s, q)] by {
                        let j = index_of(t, q);
                        lemma_index_of(s, j);
                        assert(j != i);
                    }
                    lemma_index_of(t, i as int);
                    assert(entries_map(t) =~= entries_map(s).insert(p, (frames, path.modified)));
                }
            },
            None => {
                entries.push(entry);
                proof {
                    let t = entries@;
                    let n = s.len() as int;
                    assert(paths_distinct(t)) by {
                        assert forall|a: int, b: int|
                            0 <= a < t.len() && 0 <= b < t.len() && a != b implies (
                        #[trigger] t[a]).path@ != (#[trigger] t[b]).path@ by {
                            if a < n && b < n {
                                assert(t[a] == s[a] && t[b] == s[b]);
                            } else if a < n {
                                assert(t[a] == s[a]);
                                assert(!has_path(s, p));
                            } else {
                                assert(t[b] == s[b]);
                                assert(!has_path(s, p));
                            }
                        }
                    }
                    assert forall|q: Seq<u8>| has_path(t, q) <==> (has_path(s, q) || q == p) by {
                        if has_path(t, q) {
                            let j = index_of(t, q);
                            if j < n {
                                assert(s[j] == t[j]);
                            }
                        }
                        if has_path(s, q) {
                            let j = index_of(s, q);
                            assert(t[j] == s[j]);
                        }
                        if q == p {
                            assert(t[n].path@ == p);
                        }
                    }
                    assert forall|q: Seq<u8>| #[trigger] has_path(t, q) && q != p implies t[index_of(
                        t,
                        q,
                    )] == s[index_of(s, q)] by {
                        let j = index_of(t, q);
                        assert(j < n);
                        assert(t[j] == s[j]);
                        lemma_index_of(s, j);
                    }
                    lemma_index_of(t, n);
                    assert(entries_map(t) =~= entries_map(s).insert(p, (frames, path.modified)));
                }
            },
        }
        self.entries = entries;
    }
}

/// Removing the entry at `i` removes its path from the map and keeps the
/// other entries.
proof fn lemma_removed_map(s: Seq<CacheEntry>, i: int)
    requires
        paths_distinct(s),
        paths_distinct(s.remove(i)),
        0 <= i < s.len(),
    ensures
        entries_map(s.remove(i)) == entries_map(s).remove(s[i].path@),
{
    let t = s.remove(i);
    let p = s[i].path@;
    assert forall|q: Seq<u8>| has_path(t, q) <==> (has_path(s, q) && q != p) by {
        if has_path(t, q) {
            let j = index_of(t, q);
            let j2 = if j < i { j } else { j + 1 };
            assert(s[j2] == t[j]);
            assert(j2 != i);
        }
        if has_path(s, q) && q != p {
            let j = index_of(s, q);
            assert(j != i);
            let j1 = if j < i { j } else { j - 1 };
            assert(t[j1] == s[j]);
        }
    }
    assert forall|q: Seq<u8>| #[trigger] has_path(t, q) implies t[index_of(t, q)] == s[index_of(
        s,
        q,
    )] by {
        let j = index_of(t, q);
        let j2 = if j < i { j } else { j + 1 };
        assert(s[j2] == t[j]);
        lemma_index_of(s, j2);
    }
    assert(entries_map(t) =~= entries_map(s).remove(p));
}

/// What [FrameCountCache::get] returns for `path` last modified at
/// `modified`, given the cache `m`.
pub open spec fn cached_count(m: Map<Seq<u8>, (usize, i128)>, path: Seq<u8>, modified: i128) -> Option<
    usize,
> {
    if m.contains_key(path) && m[path].1 == modified {
        Some(m[path].0)
    } else {
        None
    }
}

/// The cache `m` after [FrameCountCache::get] for `path` last modified at
/// `modified`: an entry counted from an older version of the file is dropped.
pub open spec fn after_get(m: Map<Seq<u8>, (usize, i128)>, path: Seq<u8>, modified: i128) -> Map<
    Seq<u8>,
    (usize, i128),
> {
    if m.contains_key(path) && m[path].1 != modified {
        m.remove(path)
    } else {
        m
    }
}

/// Getting a path right after inserting it (same modification time) gives
/// back the inserted frame count and leaves the cache as the insert left it;
/// with any other modification time it gives nothing and drops the entry.
pub proof fn lemma_get_after_insert(
    before: Map<Seq<u8>, (usize, i128)>,
    path: Seq<u8>,
    modified: i128,
    frames: usize,
    later_modified: i128,
)
    ensures
        cached_count(before.insert(path, (frames, modified)), path, modified) == Some(frames),
        after_get(before.insert(path, (frames, modified)), path, modified) == before.insert(
            path,
            (frames, modified),
        ),
        later_modified != modified ==> cached_count(
            before.insert(path, (frames, modified)),
            path,
            later_modified,
        ) is None,
        later_modified != modified ==> !after_get(
            before.insert(path, (frames, modified)),
            path,
            later_modified,
        ).contains_key(path),
{
}

/// Getting a path does not touch the entries of other paths.
pub proof fn lemma_get_keeps_other_paths(
    m: Map<Seq<u8>, (usize, i128)>,
    path: Seq<u8>,
    modified: i128,
    other: Seq<u8>,
)
    requires
        other != path,
    ensures
        after_get(m, path, modified).contains_key(other) == m.contains_key(other),
        m.contains_key(other) ==> after_get(m, path, modified)[other] == m[other],
{
}

} // verus!
