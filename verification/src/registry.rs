//! Registries that keep objects alive while they are attached, one per id.
use vstd::prelude::*;

verus! {

/// Whether some entry of `s` has the id.
pub open spec fn has_id<T>(s: Seq<(usize, T)>, id: usize) -> bool {
    exists|i: int| 0 <= i < s.len() && s[i].0 == id
}

/// Whether no two entries of `s` share an id.
pub open spec fn unique_ids<T>(s: Seq<(usize, T)>) -> bool {
    forall|i: int, j: int| 0 <= i < s.len() && 0 <= j < s.len() && i != j ==> s[i].0 != s[j].0
}

/// Objects kept alive by a parent, at most one per id.
pub struct Registry<T> {
    pub entries: Vec<(usize, T)>,
}

impl<T> Registry<T> {
    /// No two entries share an id.
    pub open spec fn wf(&self) -> bool {
        unique_ids(self.entries@)
    }

    /// Whether an object with the id is registered.
    pub open spec fn contains(&self, id: usize) -> bool {
        has_id(self.entries@, id)
    }

    /// An empty registry.
    pub fn new() -> (r: Self)
        ensures
            r.wf(),
            r.entries@.len() == 0,
    {
        Registry { entries: Vec::new() }
    }

    /// The index of the entry with the id, if any.
    fn position(&self, id: usize) -> (r: Option<usize>)
        ensures
            match r {
                Some(i) => i < self.entries@.len() && self.entries@[i as int].0 == id,
                None => !self.contains(id),
            },
    {
        let mut i: usize = 0;
        while i < self.entries.len()
            invariant
                i <= self.entries@.len(),
                forall|k: int| 0 <= k < i ==> self.entries@[k].0 != id,
            decreases self.entries@.len() - i,
        {
            if self.entries[i].0 == id {
                return Some(i);
            }
            i = i + 1;
        }
        None
    }

    /// Keeps the object alive under its id, unless an object with that id is
    /// already kept.
    pub fn retain(&mut self, id: usize, item: T)
        requires
            old(self).wf(),
        ensures
            final(self).wf(),
            final(self).entries@ == spec_retain(old(self).entries@, id, item),
            final(self).contains(id),
            forall|x: usize| #[trigger] final(self).contains(x) <==> (old(self).contains(x) || x == id),
    {
        match self.position(id) {
            Some(_) => {},
            None => {
                self.entries.push((id, item));
                assert(self.entries@[self.entries@.len() - 1].0 == id);
                assert forall|x: usize| #[trigger] self.contains(x) <==> (old(self).contains(x) || x == id) by {
                    if old(self).contains(x) {
                        let k = choose|k: int| 0 <= k < old(self).entries@.len() && old(self).entries@[k].0 == x;
                        assert(self.entries@[k] == old(self).entries@[k]);
                    }
                    if self.contains(x) && x != id {
                        let k = choose|k: int| 0 <= k < self.entries@.len() && self.entries@[k].0 == x;
                        assert(k < old(self).entries@.len());
                        assert(old(self).entries@[k] == self.entries@[k]);
                    }
                }
            },
        }
    }

    /// Stops keeping the object with the id alive and hands it back; the last
    /// entry takes its place.
    pub fn release(&mut self, id: usize) -> (r: Option<T>)
        requires
            old(self).wf(),
        ensures
            final(self).wf(),
            !old(self).contains(id) ==> final(self).entries@ == old(self).entries@ && r is None,
            old(self).contains(id) ==> r is Some,
            r matches Some(t) ==> old(self).entries@.contains((id, t)),
            forall|k: int|
                0 <= k < final(self).entries@.len() ==> old(self).entries@.contains(
                    #[trigger] final(self).entries@[k],
                ),
            !final(self).contains(id),
            forall|x: usize| #[trigger] final(self).contains(x) <==> (old(self).contains(x) && x != id),
            final(self).entries@.len() == old(self).entries@.len() - (if old(self).contains(id) { 1int } else { 0int }),
            old(self).contains(id) ==> exists|i: int|
                0 <= i < old(self).entries@.len() && #[trigger] old(self).entries@[i].0 == id
                    && final(self).entries@ == spec_swap_remove(old(self).entries@, i),
    {
        match self.position(id) {
            None => None,
            Some(i) => {
                let ghost old_entries = self.entries@;
                let ghost n = old_entries.len();
                let (_, item) = self.entries.swap_remove(i);
                proof {
                    assert(old_entries[i as int] == (id, item));
                    assert(self.entries@ =~= spec_swap_remove(old_entries, i as int));
                    let s = self.entries@;
                    assert(s.len() == n - 1);
                    assert forall|k: int| 0 <= k < s.len() implies
                        (k == i ==> s[k] == old_entries[n - 1]) && (k != i ==> s[k] == old_entries[k]) by {}
                    assert forall|x: usize| #[trigger] self.contains(x) <==> (has_id(old_entries, x) && x != id) by {
                        if self.contains(x) {
                            let k = choose|k: int| 0 <= k < s.len() && s[k].0 == x;
                            if k == i {
                                assert(old_entries[n - 1].0 == x);
                                assert(n - 1 != i);
                            } else {
                                assert(old_entries[k].0 == x);
                            }
                        }
                        if has_id(old_entries, x) && x != id {
                            let k = choose|k: int| 0 <= k < n && old_entries[k].0 == x;
                            if k == n - 1 {
                                if i < n - 1 {
                                    assert(s[i as int].0 == x);
                                }
                            } else {
                                assert(k != i);
                                assert(s[k].0 == x);
                            }
                        }
                    }
                    assert forall|a: int, b: int| 0 <= a < s.len() && 0 <= b < s.len() && a != b implies s[a].0 != s[b].0 by {
                        let oa = if a == i { n - 1 } else { a };
                        let ob = if b == i { n - 1 } else { b };
                        assert(s[a] == old_entries[oa]);
                        assert(s[b] == old_entries[ob]);
                    }
                }
                Some(item)
            },
        }
    }

    /// Removes all objects and hands them back.
    pub fn take_all(&mut self) -> (r: Vec<(usize, T)>)
        ensures
            r@ == old(self).entries@,
            final(self).entries@.len() == 0,
            final(self).wf(),
    {
        let mut empty = Vec::new();
        std::mem::swap(&mut self.entries, &mut empty);
        empty
    }
}

/// The entries after removing the one at index `i`: the last entry takes its
/// place and the others stay where they are.
pub open spec fn spec_swap_remove<T>(s: Seq<(usize, T)>, i: int) -> Seq<(usize, T)> {
    s.update(i, s.last()).drop_last()
}

/// The entries after keeping `item` under `id`.
pub open spec fn spec_retain<T>(s: Seq<(usize, T)>, id: usize, item: T) -> Seq<(usize, T)> {
    if has_id(s, id) {
        s
    } else {
        s.push((id, item))
    }
}

/// Keeping an object under an id that is already kept changes nothing: the
/// first object stays, so registering twice is the same as registering once.
pub proof fn lemma_registry_retain_idempotent<T>(s: Seq<(usize, T)>, id: usize, a: T, b: T)
    ensures
        has_id(spec_retain(s, id, a), id),
        spec_retain(spec_retain(s, id, a), id, b) == spec_retain(s, id, a),
{
    let t = s.push((id, a));
    assert(t[s.len() as int].0 == id);
}

/// What a release gives back of a retain: after keeping `item` under an id
/// that was not kept, the only object kept under that id is `item`, and ids
/// stay unique.
pub proof fn lemma_registry_release_after_retain<T>(s: Seq<(usize, T)>, id: usize, item: T, t: T)
    requires
        unique_ids(s),
        !has_id(s, id),
    ensures
        unique_ids(spec_retain(s, id, item)),
        spec_retain(s, id, item).contains((id, item)),
        spec_retain(s, id, item).contains((id, t)) ==> t == item,
{
    let r = spec_retain(s, id, item);
    assert(r[s.len() as int] == (id, item));
    if r.contains((id, t)) {
        let k = choose|k: int| 0 <= k < r.len() && r[k] == (id, t);
        if k < s.len() {
            assert(s[k].0 == id);
        }
    }
}

} // verus!
