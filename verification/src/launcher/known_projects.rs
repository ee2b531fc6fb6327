//! What the launcher's worker knows of the projects on disk, and what it
//! tells the frontend after each scan: a project found on disk is known
//! (new if it was not known before), and a project that a scan no longer
//! finds is reported missing once and then forgotten.

use vstd::prelude::*;

use crate::ffmpeg_tools::ffmpeg_video::seek_info::bytes_eq;
use crate::launcher::ProjectKnownState;

verus! {

/// One known project: its identifier (the bytes of its path) and what is
/// known of it.
#[derive(Debug)]
struct Entry {
    id: Vec<u8>,
    state: ProjectKnownState,
}

/// Whether some entry of `s` is for `id`.
spec fn has_id(s: Seq<Entry>, id: Seq<u8>) -> bool {
    exists|i: int| 0 <= i < s.len() && (#[trigger] s[i]).id@ == id
}

/// The index of an entry of `s` for `id` (meaningful where there is one).
spec fn index_of(s: Seq<Entry>, id: Seq<u8>) -> int {
    choose|i: int| 0 <= i < s.len() && (#[trigger] s[i]).id@ == id
}

/// No two entries are for the same project.
spec fn ids_distinct(s: Seq<Entry>) -> bool {
    forall|i: int, j: int|
        0 <= i < s.len() && 0 <= j < s.len() && i != j ==> (#[trigger] s[i]).id@ != (
        #[trigger] s[j]).id@
}

/// The entries as a map from project to what is known of it.
spec fn entries_map(s: Seq<Entry>) -> Map<Seq<u8>, ProjectKnownState> {
    Map::new(|id: Seq<u8>| has_id(s, id), |id: Seq<u8>| s[index_of(s, id)].state)
}

/// In a list of distinct projects, the entry for a project is the one at its
/// index.
proof fn lemma_index_of(s: Seq<Entry>, i: int)
    requires
        ids_distinct(s),
        0 <= i < s.len(),
    ensures
        has_id(s, s[i].id@),
        index_of(s, s[i].id@) == i,
{
    let p = s[i].id@;
    assert(has_id(s, p));
    let j = index_of(s, p);
    assert(0 <= j < s.len() && s[j].id@ == p);
}

/// Replacing the entry at `i` by one for the same project replaces what is
/// known of that project and keeps the rest.
proof fn lemma_replaced_map(s: Seq<Entry>, t: Seq<Entry>, i: int)
    requires
        ids_distinct(s),
        0 <= i < s.len(),
        t.len() == s.len(),
        t[i].id@ == s[i].id@,
        forall|j: int| 0 <= j < t.len() && j != i ==> #[trigger] t[j] == s[j],
    ensures
        ids_distinct(t),
        entries_map(t) == entries_map(s).insert(s[i].id@, t[i].state),
{
    let p = s[i].id@;
    assert(ids_distinct(t)) by {
        assert forall|a: int, b: int|
            0 <= a < t.len() && 0 <= b < t.len() && a != b implies (#[trigger] t[a]).id@ != (
        #[trigger] t[b]).id@ by {
            assert(t[a].id@ == s[a].id@ && t[b].id@ == s[b].id@);
        }
    }
    assert forall|q: Seq<u8>| has_id(t, q) <==> has_id(s, q) by {
        if has_id(t, q) {
            let j = index_of(t, q);
            assert(s[j].id@ == q);
        }
        if has_id(s, q) {
            let j = index_of(s, q);
            assert(t[j].id@ == q);
        }
    }
    assert forall|q: Seq<u8>| #[trigger] has_id(t, q) && q != p implies t[index_of(t, q)] == s[index_of(
        s,
        q,
    )] by {
        let j = index_of(t, q);
        lemma_index_of(s, j);
        assert(j != i);
    }
    lemma_index_of(t, i);
    assert(entries_map(t) =~= entries_map(s).insert(p, t[i].state));
}

/// Removing the entry at `i` forgets its project and keeps the others.
proof fn lemma_removed_map(s: Seq<Entry>, i: int)
    requires
        ids_distinct(s),
        ids_distinct(s.remove(i)),
        0 <= i < s.len(),
    ensures
        entries_map(s.remove(i)) == entries_map(s).remove(s[i].id@),
{
    let t = s.remove(i);
    let p = s[i].id@;
    assert forall|q: Seq<u8>| has_id(t, q) <==> (has_id(s, q) && q != p) by {
        if has_id(t, q) {
            let j = index_of(t, q);
            let j2 = if j < i { j } else { j + 1 };
            assert(s[j2] == t[j]);
            assert(j2 != i);
        }
        if has_id(s, q) && q != p {
            let j = index_of(s, q);
            assert(j != i);
            let j1 = if j < i { j } else { j - 1 };
            assert(t[j1] == s[j]);
        }
    }
    assert forall|q: Seq<u8>| #[trigger] has_id(t, q) implies t[index_of(t, q)] == s[index_of(
        s,
        q,
    )] by {
        let j = index_of(t, q);
        let j2 = if j < i { j } else { j + 1 };
        assert(s[j2] == t[j]);
        lemma_index_of(s, j2);
    }
    assert(entries_map(t) =~= entries_map(s).remove(p));
}

/// The known projects after a refresh of `m`: every project that was known
/// to be on disk is now assumed missing until the next scan finds it, and
/// the projects that were missing are forgotten.
pub open spec fn refreshed(m: Map<Seq<u8>, ProjectKnownState>) -> Map<Seq<u8>, ProjectKnownState> {
    Map::new(
        |id: Seq<u8>| m.contains_key(id) && m[id] != ProjectKnownState::Missing,
        |id: Seq<u8>| ProjectKnownState::Missing,
    )
}

/// What the frontend is told about a known project at a refresh.
#[derive(Debug, Clone, Copy, PartialEq, Eq)]
pub enum ProjectNotice {
    /// The project's info changed on disk.
    Changed,
    /// The project was found for the first time.
    Appeared,
    /// The project is no longer on disk.
    Disappeared,
}

/// What to tell the frontend about a project known as `state` at a refresh,
/// where `changed` says whether re-reading an already known project found
/// its info changed: nothing for an unchanged project.
pub fn notice_for(state: ProjectKnownState, changed: bool) -> (r: Option<ProjectNotice>)
    ensures
        r == match state {
            ProjectKnownState::NotNew => if changed {
                Some(ProjectNotice::Changed)
            } else {
                None
            },
            ProjectKnownState::New => Some(ProjectNotice::Appeared),
            ProjectKnownState::Missing => Some(ProjectNotice::Disappeared),
        },
{
    match state {
        ProjectKnownState::NotNew => if changed {
            Some(ProjectNotice::Changed)
        } else {
            None
        },
        ProjectKnownState::New => Some(ProjectNotice::Appeared),
        ProjectKnownState::Missing => Some(ProjectNotice::Disappeared),
    }
}

/// The projects the launcher's worker knows of, each with what is known of
/// it.
#[derive(Debug)]
pub struct KnownProjects {
    entries: Vec<Entry>,
}

impl View for KnownProjects {
    type V = Map<Seq<u8>, ProjectKnownState>;

    /// Each known project (by the bytes of its path) with what is known of
    /// it.
    closed spec fn view(&self) -> Map<Seq<u8>, ProjectKnownState> {
        entries_map(self.entries@)
    }
}

impl KnownProjects {
    #[verifier::type_invariant]
    spec fn well_formed(&self) -> bool {
        ids_distinct(self.entries@)
    }

    /// No project known yet.
    pub fn new() -> (r: Self)
        ensures
            r@ == Map::<Seq<u8>, ProjectKnownState>::empty(),
    {
        let r = KnownProjects { entries: Vec::new() };
        assert(r@ =~= Map::<Seq<u8>, ProjectKnownState>::empty());
        r
    }

    /// The index of the entry for `id`, if there is one.
    fn find(&self, id: &[u8]) -> (r: Option<usize>)
        ensures
            r is Some <==> self@.contains_key(id@),
            r matches Some(i) ==> i < self.entries@.len() && self.entries@[i as int].id@ == id@
                && index_of(self.entries@, id@) == i,
    {
        proof {
            use_type_invariant(self);
        }
        let mut k: usize = 0;
        while k < self.entries.len()
            invariant
                k <= self.entries@.len(),
                ids_distinct(self.entries@),
                forall|i: int| 0 <= i < k ==> (#[trigger] self.entries@[i]).id@ != id@,
            decreases self.entries@.len() - k,
        {
            if bytes_eq(self.entries[k].id.as_slice(), id) {
                proof {
                    lemma_index_of(self.entries@, k as int);
                }
                return Some(k);
            }
            k = k + 1;
        }
        None
    }

    /// What is known of the project `id`, if it is known.
    pub fn get(&self, id: &[u8]) -> (r: Option<ProjectKnownState>)
        ensures
            r == if self@.contains_key(id@) {
                Some(self@[id@])
            } else {
                None
            },
    {
        match self.find(id) {
            Some(i) => Some(self.entries[i].state),
            None => None,
        }
    }

    /// A scan found the project `id` on disk: if it is known, it is known to
    /// be there (not new) and `true` is returned; otherwise nothing changes
    /// and `false` is returned (the caller reads the project and
    /// [Self::insert]s it as new).
    pub fn mark_found(&mut self, id: &[u8]) -> (r: bool)
        ensures
            r == old(self)@.contains_key(id@),
            r ==> final(self)@ == old(self)@.insert(id@, ProjectKnownState::NotNew),
            !r ==> final(self)@ == old(self)@,
    {
        proof {
            use_type_invariant(&*self);
        }
        match self.find(id) {
            None => false,
            Some(i) => {
                let ghost s = self.entries@;
                let kept_id = vstd::slice::slice_to_vec(self.entries[i].id.as_slice());
                let mut entries: Vec<Entry> = Vec::new();
                std::mem::swap(&mut entries, &mut self.entries);
                entries.set(i, Entry { id: kept_id, state: ProjectKnownState::NotNew });
                proof {
                    let t = entries@;
                    assert forall|j: int| 0 <= j < t.len() && j != i implies #[trigger] t[j]
                        == s[j] by {}
                    lemma_replaced_map(s, t, i as int);
                }
                self.entries = entries;
                true
            },
        }
    }

    /// Sets what is known of the project `id` (a newly found or newly created
    /// project).
    pub fn insert(&mut self, id: Vec<u8>, state: ProjectKnownState)
        ensures
            final(self)@ == old(self)@.insert(id@, state),
    {
        proof {
            use_type_invariant(&*self);
        }
        let ghost s = self.entries@;
        let ghost p = id@;
        let found = self.find(id.as_slice());
        let mut entries: Vec<Entry> = Vec::new();
        std::mem::swap(&mut entries, &mut self.entries);
        let entry = Entry { id, state };
        match found {
            Some(i) => {
                entries.set(i, entry);
                proof {
                    let t = entries@;
                    assert forall|j: int| 0 <= j < t.len() && j != i implies #[trigger] t[j]
                        == s[j] by {}
                    lemma_replaced_map(s, t, i as int);
                }
            },
            None => {
                entries.push(entry);
                proof {
                    let t = entries@;
                    let n = s.len() as int;
                    assert(ids_distinct(t)) by {
                        assert forall|a: int, b: int|
                            0 <= a < t.len() && 0 <= b < t.len() && a != b implies (
                        #[trigger] t[a]).id@ != (#[trigger] t[b]).id@ by {
                            if a < n && b < n {
                                assert(t[a] == s[a] && t[b] == s[b]);
                            } else if a < n {
                                assert(t[a] == s[a]);
                                assert(!has_id(s, p));
                            } else {
                                assert(t[b] == s[b]);
                                assert(!has_id(s, p));
                            }
                        }
                    }
                    assert forall|q: Seq<u8>| has_id(t, q) <==> (has_id(s, q) || q == p) by {
                        if has_id(t, q) {
                            let j = index_of(t, q);
                            if j < n {
                                assert(s[j] == t[j]);
                            }
                        }
                        if has_id(s, q) {
                            let j = index_of(s, q);
                            assert(t[j] == s[j]);
                        }
                        if q == p {
                            assert(t[n].id@ == p);
                        }
                    }
                    assert forall|q: Seq<u8>| #[trigger] has_id(t, q) && q != p implies t[index_of(
                        t,
                        q,
                    )] == s[index_of(s, q)] by {
                        let j = index_of(t, q);
                        assert(j < n);
                        assert(t[j] == s[j]);
                        lemma_index_of(s, j);
                    }
                    lemma_index_of(t, n);
                    assert(entries_map(t) =~= entries_map(s).insert(p, state));
                }
            },
        }
        self.entries = entries;
    }

    /// Forgets the project `id` (a deleted project).
    pub fn remove(&mut self, id: &[u8])
        ensures
            final(self)@ == old(self)@.remove(id@),
    {
        proof {
            use_type_invariant(&*self);
        }
        match self.find(id) {
            None => {
                assert(self@ =~= self@.remove(id@));
            },
            Some(i) => {
                let ghost s = self.entries@;
                let mut entries: Vec<Entry> = Vec::new();
                std::mem::swap(&mut entries, &mut self.entries);
                entries.remove(i);
                proof {
                    let t = entries@;
                    assert(t =~= s.remove(i as int));
                    assert(ids_distinct(t)) by {
                        assert forall|a: int, b: int|
                            0 <= a < t.len() && 0 <= b < t.len() && a != b implies (
                        #[trigger] t[a]).id@ != (#[trigger] t[b]).id@ by {
                            let a2 = if a < i { a } else { a + 1 };
                            let b2 = if b < i { b } else { b + 1 };
                            assert(t[a] == s[a2] && t[b] == s[b2]);
                        }
                    }
                    lemma_removed_map(s, i as int);
                }
                self.entries = entries;
            },
        }
    }

    /// Refreshes the known projects after a scan: returns every known project
    /// with what was known of it (to tell the frontend, see [notice_for]),
    /// and keeps the projects known to be on disk, now assumed missing until
    /// the next scan finds them, while the missing ones are forgotten.
    pub fn refresh(&mut self) -> (r: Vec<(Vec<u8>, ProjectKnownState)>)
        ensures
            final(self)@ == refreshed(old(self)@),
            forall|i: int, j: int|
                0 <= i < r@.len() && 0 <= j < r@.len() && i != j ==> (#[trigger] r@[i]).0@ != (
                #[trigger] r@[j]).0@,
            forall|i: int|
                0 <= i < r@.len() ==> old(self)@.contains_key((#[trigger] r@[i]).0@) && old(
                    self,
                )@[r@[i].0@] == r@[i].1,
            forall|id: Seq<u8>|
                #[trigger] old(self)@.contains_key(id) ==> exists|i: int|
                    0 <= i < r@.len() && (#[trigger] r@[i]).0@ == id,
    {
        proof {
            use_type_invariant(&*self);
        }
        let ghost s = self.entries@;
        let mut old_entries: Vec<Entry> = Vec::new();
        std::mem::swap(&mut old_entries, &mut self.entries);
        let mut kept: Vec<Entry> = Vec::new();
        let mut notices: Vec<(Vec<u8>, ProjectKnownState)> = Vec::new();
        let n = old_entries.len();
        let mut k: usize = 0;
        while k < n
            invariant
                n == s.len(),
                old_entries@ == s,
                ids_distinct(s),
                0 <= k <= n,
                notices@.len() == k,
                forall|j: int|
                    0 <= j < k ==> (#[trigger] notices@[j]).0@ == s[j].id@ && notices@[j].1
                        == s[j].state,
                ids_distinct(kept@),
                forall|j: int| 0 <= j < kept@.len() ==> (#[trigger] kept@[j]).state
                    == ProjectKnownState::Missing,
                forall|q: Seq<u8>|
                    #[trigger] has_id(kept@, q) <==> exists|j: int|
                        0 <= j < k && (#[trigger] s[j]).id@ == q && s[j].state
                            != ProjectKnownState::Missing,
            decreases n - k,
        {
            let id = vstd::slice::slice_to_vec(old_entries[k].id.as_slice());
            let state = old_entries[k].state;
            notices.push((id, state));
            let missing = match state {
                ProjectKnownState::Missing => true,
                _ => false,
            };
            if !missing {
                let ghost before = kept@;
                let kept_id = vstd::slice::slice_to_vec(old_entries[k].id.as_slice());
                kept.push(Entry { id: kept_id, state: ProjectKnownState::Missing });
                proof {
                    let t = kept@;
                    let m = before.len() as int;
                    assert(!has_id(before, s[k as int].id@)) by {
                        if has_id(before, s[k as int].id@) {
                            let j = choose|j: int|
                                0 <= j < k && (#[trigger] s[j]).id@ == s[k as int].id@ && s[j].state
                                    != ProjectKnownState::Missing;
                            assert(j != k);
                        }
                    }
                    assert(ids_distinct(t)) by {
                        assert forall|a: int, b: int|
                            0 <= a < t.len() && 0 <= b < t.len() && a != b implies (
                        #[trigger] t[a]).id@ != (#[trigger] t[b]).id@ by {
                            if a < m && b < m {
                                assert(t[a] == before[a] && t[b] == before[b]);
                            } else if a < m {
                                assert(t[a] == before[a]);
                            } else {
                                assert(t[b] == before[b]);
                            }
                        }
                    }
                    assert forall|q: Seq<u8>| #[trigger] has_id(t, q) <==> exists|j: int|
                        0 <= j < k + 1 && (#[trigger] s[j]).id@ == q && s[j].state
                            != ProjectKnownState::Missing by {
                        if has_id(t, q) {
                            let j = index_of(t, q);
                            if j < m {
                                assert(t[j] == before[j]);
                                assert(has_id(before, q));
                            } else {
                                assert(s[k as int].id@ == q);
                            }
                        }
                        if exists|j: int|
                            0 <= j < k + 1 && (#[trigger] s[j]).id@ == q && s[j].state
                                != ProjectKnownState::Missing {
                            let j = choose|j: int|
                                0 <= j < k + 1 && (#[trigger] s[j]).id@ == q && s[j].state
                                    != ProjectKnownState::Missing;
                            if j < k {
                                assert(has_id(before, q));
                                let i2 = index_of(before, q);
                                assert(t[i2] == before[i2]);
                            } else {
                                assert(t[m].id@ == q);
                            }
                        }
                    }
                }
            } else {
                proof {
                    assert forall|q: Seq<u8>| #[trigger] has_id(kept@, q) <==> exists|j: int|
                        0 <= j < k + 1 && (#[trigger] s[j]).id@ == q && s[j].state
                            != ProjectKnownState::Missing by {
                        if exists|j: int|
                            0 <= j < k + 1 && (#[trigger] s[j]).id@ == q && s[j].state
                                != ProjectKnownState::Missing {
                            let j = choose|j: int|
                                0 <= j < k + 1 && (#[trigger] s[j]).id@ == q && s[j].state
                                    != ProjectKnownState::Missing;
                            assert(j != k);
                        }
                    }
                }
            }
            k = k + 1;
        }
        proof {
            let t = kept@;
            let m = entries_map(s);
            assert forall|q: Seq<u8>| has_id(t, q) <==> (m.contains_key(q) && m[q]
                != ProjectKnownState::Missing) by {
                if has_id(t, q) {
                    let j = choose|j: int|
                        0 <= j < n && (#[trigger] s[j]).id@ == q && s[j].state
                            != ProjectKnownState::Missing;
                    lemma_index_of(s, j);
                }
                if m.contains_key(q) && m[q] != ProjectKnownState::Missing {
                    let j = index_of(s, q);
                    assert(0 <= j < n && s[j].id@ == q);
                }
            }
            assert forall|q: Seq<u8>| #[trigger] has_id(t, q) implies t[index_of(t, q)].state
                == ProjectKnownState::Missing by {
                let j = index_of(t, q);
                assert(0 <= j < t.len());
            }
            assert(entries_map(t) =~= refreshed(m));
            assert forall|id: Seq<u8>| #[trigger] m.contains_key(id) implies exists|i: int|
                0 <= i < notices@.len() && (#[trigger] notices@[i]).0@ == id by {
                let j = index_of(s, id);
                assert(notices@[j].0@ == id);
            }
            assert forall|i: int, j: int|
                0 <= i < notices@.len() && 0 <= j < notices@.len() && i != j implies (
            #[trigger] notices@[i]).0@ != (#[trigger] notices@[j]).0@ by {
                assert(notices@[i].0@ == s[i].id@ && notices@[j].0@ == s[j].id@);
            }
            assert forall|i: int| 0 <= i < notices@.len() implies m.contains_key(
                (#[trigger] notices@[i]).0@,
            ) && m[notices@[i].0@] == notices@[i].1 by {
                lemma_index_of(s, i);
            }
        }
        self.entries = kept;
        notices
    }
}

/// A project that every scan finds stays known: found after a refresh, it
/// is known to be on disk, and the next refresh keeps it.
pub proof fn lemma_found_project_stays_known(m: Map<Seq<u8>, ProjectKnownState>, id: Seq<u8>)
    ensures
        refreshed(m.insert(id, ProjectKnownState::NotNew)).contains_key(id),
        refreshed(m.insert(id, ProjectKnownState::New)).contains_key(id),
{
}

/// A known project that a scan no longer finds is reported missing by the
/// next refresh (which hands it out as missing) and is forgotten by the one
/// after.
pub proof fn lemma_lost_project_is_forgotten(m: Map<Seq<u8>, ProjectKnownState>, id: Seq<u8>)
    requires
        m.contains_key(id),
        m[id] != ProjectKnownState::Missing,
    ensures
        refreshed(m).contains_key(id),
        refreshed(m)[id] == ProjectKnownState::Missing,
        !refreshed(refreshed(m)).contains_key(id),
{
}

} // verus!
