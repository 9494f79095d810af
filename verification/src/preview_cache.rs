//! Previews of files that were looked at before.

use vstd::prelude::*;

use crate::path::{ComponentView, FilePath};
use crate::preview::CachedPreview;

verus! {

/// Caches previews by path.
pub struct PreviewCache<D> {
    entries: Vec<(FilePath, CachedPreview<D>)>,
}

/// Entry `i` is for `path`.
spec fn entry_for<D>(entries: Seq<(FilePath, CachedPreview<D>)>, path: Seq<ComponentView>, i: int) -> bool {
    0 <= i < entries.len() && entries[i].0@ == path
}

/// No path occurs twice.
spec fn distinct<D>(entries: Seq<(FilePath, CachedPreview<D>)>) -> bool {
    forall|i: int, j: int|
        0 <= i < j < entries.len() ==> (#[trigger] entries[i]).0@ != (#[trigger] entries[j]).0@
}

/// The previews by their paths.
spec fn by_path<D>(entries: Seq<(FilePath, CachedPreview<D>)>) -> Map<Seq<ComponentView>, CachedPreview<D>> {
    Map::new(
        |path: Seq<ComponentView>| exists|i: int| entry_for(entries, path, i),
        |path: Seq<ComponentView>| entries[choose|i: int| entry_for(entries, path, i)].1,
    )
}

impl<D> View for PreviewCache<D> {
    type V = Map<Seq<ComponentView>, CachedPreview<D>>;

    closed spec fn view(&self) -> Map<Seq<ComponentView>, CachedPreview<D>> {
        by_path(self.entries@)
    }
}

proof fn lemma_entry<D>(entries: Seq<(FilePath, CachedPreview<D>)>, i: int)
    requires
        distinct(entries),
        0 <= i < entries.len(),
    ensures
        by_path(entries).contains_key(entries[i].0@),
        by_path(entries)[entries[i].0@] == entries[i].1,
{
    let path = entries[i].0@;
    assert(entry_for(entries, path, i));
    let j = choose|j: int| entry_for(entries, path, j);
    assert(entry_for(entries, path, j));
    assert(j == i);
}

/// Entry `at` is the only one in which `after` differs from `before`.
proof fn lemma_update<D>(
    before: Seq<(FilePath, CachedPreview<D>)>,
    after: Seq<(FilePath, CachedPreview<D>)>,
    at: int,
)
    requires
        distinct(before),
        distinct(after),
        0 <= at < after.len(),
        if at < before.len() {
            after.len() == before.len() && before[at].0@ == after[at].0@
        } else {
            after.len() == before.len() + 1
        },
        forall|k: int| 0 <= k < before.len() && k != at ==> #[trigger] after[k] == before[k],
    ensures
        by_path(after) == by_path(before).insert(after[at].0@, after[at].1),
{
    let path = after[at].0@;
    let old_map = by_path(before);
    let new_map = by_path(after);
    lemma_entry(after, at);
    assert forall|q: Seq<ComponentView>| q != path implies (#[trigger] new_map.dom().contains(q)
        <==> old_map.dom().contains(q)) && (new_map.dom().contains(q) ==> new_map[q] == old_map[q]) by {
        if new_map.dom().contains(q) {
            let k = choose|k: int| entry_for(after, q, k);
            assert(entry_for(after, q, k));
            assert(k != at);
            lemma_entry(after, k);
            lemma_entry(before, k);
        }
        if old_map.dom().contains(q) {
            let k = choose|k: int| entry_for(before, q, k);
            assert(entry_for(before, q, k));
            assert(k != at);
            assert(after[k] == before[k]);
            lemma_entry(after, k);
        }
    }
    assert(new_map =~= old_map.insert(path, after[at].1));
}

impl<D> PreviewCache<D> {
    /// No path occurs twice.
    pub closed spec fn wf(&self) -> bool {
        distinct(self.entries@)
    }

    /// An empty cache.
    pub fn new() -> (cache: PreviewCache<D>)
        ensures
            cache.wf(),
            cache@ == Map::<Seq<ComponentView>, CachedPreview<D>>::empty(),
    {
        let cache = PreviewCache { entries: Vec::new() };
        proof {
            assert(cache@ =~= Map::<Seq<ComponentView>, CachedPreview<D>>::empty());
        }
        cache
    }

    /// Where the entry for a path is.
    fn position(&self, path: &FilePath) -> (at: Option<usize>)
        requires
            self.wf(),
        ensures
            match at {
                Some(i) => i < self.entries@.len() && self.entries@[i as int].0@ == path@
                    && self@.contains_key(path@) && self@[path@] == self.entries@[i as int].1,
                None => !self@.contains_key(path@),
            },
    {
        let mut i: usize = 0;
        while i < self.entries.len()
            invariant
                i <= self.entries.len(),
                self.wf(),
                forall|k: int| 0 <= k < i ==> (#[trigger] self.entries@[k]).0@ != path@,
            decreases self.entries.len() - i,
        {
            if self.entries[i].0.same(path) {
                proof {
                    lemma_entry(self.entries@, i as int);
                }
                return Some(i);
            }
            i = i + 1;
        }
        proof {
            assert forall|k: int| !entry_for(self.entries@, path@, k) by {}
        }
        None
    }

    /// The preview of a file.
    pub fn get(&self, path: &FilePath) -> (preview: Option<&CachedPreview<D>>)
        requires
            self.wf(),
        ensures
            preview == (if self@.contains_key(path@) {
                Some(&self@[path@])
            } else {
                None
            }),
    {
        match self.position(path) {
            Some(i) => Some(&self.entries[i].1),
            None => None,
        }
    }

    /// Remembers the preview of a file, in place of an earlier one.
    pub fn insert(&mut self, path: FilePath, preview: CachedPreview<D>)
        requires
            old(self).wf(),
        ensures
            final(self).wf(),
            final(self)@ == old(self)@.insert(path@, preview),
    {
        let ghost key = path@;
        let at = self.position(&path);
        match at {
            Some(i) => {
                self.entries.set(i, (path, preview));
                proof {
                    lemma_update(old(self).entries@, self.entries@, i as int);
                }
            },
            None => {
                proof {
                    assert forall|k: int| 0 <= k < self.entries@.len() implies (
                    #[trigger] self.entries@[k]).0@ != key by {
                        lemma_entry(self.entries@, k);
                    }
                }
                self.entries.push((path, preview));
                proof {
                    lemma_update(old(self).entries@, self.entries@, self.entries@.len() - 1);
                }
            },
        }
    }

    /// The document that is the preview of a file, to be changed.
    pub fn get_document_mut(&mut self, path: &FilePath) -> (document: Option<&mut D>)
        requires
            old(self).wf(),
        ensures
            final(self).wf(),
            match document {
                Some(document) => {
                    &&& old(self)@.contains_key(path@)
                    &&& old(self)@[path@] == CachedPreview::Document(Box::new(*document))
                    &&& final(self)@ == old(self)@.insert(
                        path@,
                        CachedPreview::Document(Box::new(*final(document))),
                    )
                },
                None => {
                    &&& final(self)@ == old(self)@
                    &&& !(old(self)@.contains_key(path@) && old(self)@[path@] is Document)
                },
            },
    {
        match self.position(path) {
            Some(i) => {
                let ghost entries = self.entries@;
                proof {
                    assert forall|preview: CachedPreview<D>|
                        ({
                            let changed = #[trigger] entries.update(
                                i as int,
                                (entries[i as int].0, preview),
                            );
                            distinct(changed) && by_path(changed) == by_path(entries).insert(
                                path@,
                                preview,
                            )
                        }) by {
                        let changed = entries.update(i as int, (entries[i as int].0, preview));
                        assert(distinct(changed));
                        lemma_update(entries, changed, i as int);
                    }
                }
                match &mut self.entries[i].1 {
                    CachedPreview::Document(document) => Some(&mut **document),
                    _ => None,
                }
            },
            None => None,
        }
    }
}

} // verus!
