//! A cache of template engines by template directory.
//!
//! An engine is put in once and never replaced or removed, so that whoever
//! asks for a directory twice gets the same engine twice.

use crate::text::str_eq;
use vstd::prelude::*;

verus! {

/// Engines by the path of their template directory. The cache only grows,
/// and no path stands in it twice.
pub struct TemplateCache<T> {
    entries: Vec<(String, T)>,
}

/// One entry of the cache: a path and its engine.
pub struct CacheEntry<T> {
    pub path: Seq<char>,
    pub engine: T,
}

/// The engine that the entries hold for `path`.
pub open spec fn cached<T>(entries: Seq<CacheEntry<T>>, path: Seq<char>) -> Option<T>
    decreases entries.len(),
{
    if entries.len() == 0 {
        None
    } else if entries[0].path == path {
        Some(entries[0].engine)
    } else {
        cached(entries.skip(1), path)
    }
}

/// No path stands twice among the entries.
pub open spec fn paths_distinct<T>(entries: Seq<CacheEntry<T>>) -> bool {
    forall|i: int, j: int|
        0 <= i < j < entries.len() ==> (#[trigger] entries[i]).path != (#[trigger] entries[j]).path
}

/// An engine that the entries hold stays the same when an entry is added
/// behind them.
pub proof fn lemma_cached_stays<T>(entries: Seq<CacheEntry<T>>, added: CacheEntry<T>, path: Seq<char>)
    requires
        cached(entries, path) is Some,
    ensures
        cached(entries.push(added), path) == cached(entries, path),
    decreases entries.len(),
{
    if entries.len() > 0 && entries[0].path != path {
        assert(entries.push(added).skip(1) =~= entries.skip(1).push(added));
        lemma_cached_stays(entries.skip(1), added, path);
    }
}

/// A path that the entries do not hold has, once its entry is added behind
/// them, the engine of that entry.
pub proof fn lemma_cached_added<T>(entries: Seq<CacheEntry<T>>, added: CacheEntry<T>)
    requires
        cached(entries, added.path) is None,
    ensures
        cached(entries.push(added), added.path) == Some(added.engine),
    decreases entries.len(),
{
    if entries.len() > 0 {
        assert(entries.push(added).skip(1) =~= entries.skip(1).push(added));
        lemma_cached_added(entries.skip(1), added);
    } else {
        assert(entries.push(added)[0] == added);
    }
}

proof fn lemma_cached_absent<T>(entries: Seq<CacheEntry<T>>, path: Seq<char>)
    requires
        cached(entries, path) is None,
    ensures
        forall|i: int| 0 <= i < entries.len() ==> (#[trigger] entries[i]).path != path,
    decreases entries.len(),
{
    if entries.len() > 0 {
        lemma_cached_absent(entries.skip(1), path);
        assert forall|i: int| 0 <= i < entries.len() implies (#[trigger] entries[i]).path
            != path by {
            if i > 0 {
                assert(entries.skip(1)[i - 1] == entries[i]);
            }
        }
    }
}

impl<T> TemplateCache<T> {
    /// The entries of the cache, in the order in which they were put in.
    pub closed spec fn view(&self) -> Seq<CacheEntry<T>> {
        Seq::new(
            self.entries@.len(),
            |i: int| CacheEntry { path: self.entries@[i].0@, engine: self.entries@[i].1 },
        )
    }

    #[verifier::type_invariant]
    spec fn paths_are_distinct(&self) -> bool {
        paths_distinct(self.view())
    }

    /// A cache without engines.
    pub fn new() -> (r: TemplateCache<T>)
        ensures
            r.view().len() == 0,
    {
        TemplateCache { entries: Vec::new() }
    }

    /// How many engines the cache holds.
    pub fn len(&self) -> (r: usize)
        ensures
            r == self.view().len(),
    {
        self.entries.len()
    }

    fn position(&self, path: &str) -> (r: Option<usize>)
        ensures
            match r {
                Some(i) => i < self.view().len() && self.view()[i as int].path == path@ && cached(
                    self.view(),
                    path@,
                ) == Some(self.view()[i as int].engine),
                None => cached(self.view(), path@) is None,
            },
    {
        let ghost all = self.view();
        let mut i: usize = 0;
        assert(all.skip(0) =~= all);
        while i < self.entries.len()
            invariant
                i <= self.entries.len(),
                all == self.view(),
                cached(all, path@) == cached(all.skip(i as int), path@),
            decreases self.entries.len() - i,
        {
            proof {
                assert(all.skip(i as int)[0] == all[i as int]);
                assert(all.skip(i as int).skip(1) =~= all.skip(i as int + 1));
            }
            if str_eq(self.entries[i].0.as_str(), path) {
                return Some(i);
            }
            i += 1;
        }
        None
    }

    /// The engine of a template directory, where the cache has one.
    pub fn get(&self, path: &str) -> (r: Option<&T>)
        ensures
            match r {
                Some(engine) => cached(self.view(), path@) == Some(*engine),
                None => cached(self.view(), path@) is None,
            },
    {
        match self.position(path) {
            Some(i) => Some(&self.entries[i].1),
            None => None,
        }
    }

    /// Puts in the engine of a template directory, unless the directory has
    /// one already: then the cache stays as it is and the new engine is
    /// handed back beside it.
    pub fn insert(self, path: String, engine: T) -> (r: (TemplateCache<T>, Option<T>))
        ensures
            match r.1 {
                None => {
                    &&& cached(self.view(), path@) is None
                    &&& r.0.view() == self.view().push(CacheEntry { path: path@, engine })
                },
                Some(back) => {
                    &&& cached(self.view(), path@) is Some
                    &&& back == engine
                    &&& r.0.view() == self.view()
                },
            },
    {
        match self.position(path.as_str()) {
            Some(_) => (self, Some(engine)),
            None => {
                let ghost before = self.view();
                proof {
                    use_type_invariant(&self);
                    lemma_cached_absent(before, path@);
                }
                let mut entries = self.entries;
                entries.push((path, engine));
                proof {
                    let after = Seq::new(
                        entries@.len(),
                        |i: int| CacheEntry { path: entries@[i].0@, engine: entries@[i].1 },
                    );
                    assert(after =~= before.push(CacheEntry { path: path@, engine }));
                    assert forall|i: int, j: int| 0 <= i < j < after.len() implies (
                    #[trigger] after[i]).path != (#[trigger] after[j]).path by {
                        assert(after[i] == before[i]);
                        if j < before.len() {
                            assert(after[j] == before[j]);
                        }
                    }
                }
                let grown = TemplateCache { entries };
                assert(grown.view() =~= before.push(CacheEntry { path: path@, engine }));
                (grown, None)
            },
        }
    }
}

} // verus!
