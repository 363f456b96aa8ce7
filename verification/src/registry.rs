//! A small association table keyed by strings, used for the session and
//! push-channel registries. Specified as a partial map from character
//! sequences to values; keys are kept distinct as an invariant.

use vstd::prelude::*;

use crate::strutil::str_eq;

verus! {

/// An in-memory table from string identifiers to values.
pub struct StrTable<V> {
    entries: Vec<(String, V)>,
}

impl<V> StrTable<V> {
    /// Keys are pairwise distinct.
    pub closed spec fn wf(&self) -> bool {
        forall|i: int, j: int|
            0 <= i < j < self.entries@.len() ==> self.entries@[i].0@ != self.entries@[j].0@
    }

    /// The table holds an entry for `id`.
    pub closed spec fn contains_id(&self, id: Seq<char>) -> bool {
        exists|i: int| 0 <= i < self.entries@.len() && self.entries@[i].0@ == id
    }

    /// The position of `id`'s entry (meaningful only when present).
    pub closed spec fn index_of(&self, id: Seq<char>) -> int {
        choose|i: int| 0 <= i < self.entries@.len() && self.entries@[i].0@ == id
    }

    /// The value stored under `id` (meaningful only when present).
    pub closed spec fn value_of(&self, id: Seq<char>) -> V {
        self.entries@[self.index_of(id)].1
    }

    /// Number of entries.
    pub closed spec fn spec_len(&self) -> nat {
        self.entries@.len()
    }

    /// An empty table.
    pub fn new() -> (r: Self)
        ensures
            r.wf(),
            forall|k: Seq<char>| !r.contains_id(k),
            r.spec_len() == 0,
    {
        StrTable { entries: Vec::new() }
    }

    /// Find the position of `id`, if present.
    fn find(&self, id: &str) -> (r: Option<usize>)
        ensures
            match r {
                Some(i) => i < self.entries@.len() && self.entries@[i as int].0@ == id@,
                None => !self.contains_id(id@),
            },
    {
        let n = self.entries.len();
        let mut i: usize = 0;
        while i < n
            invariant
                n == self.entries@.len(),
                i <= n,
                forall|k: int| 0 <= k < i ==> self.entries@[k].0@ != id@,
            decreases n - i,
        {
            if str_eq(self.entries[i].0.as_str(), id) {
                return Some(i);
            }
            i += 1;
        }
        None
    }

    /// Does the table hold an entry for `id`?
    pub fn contains(&self, id: &str) -> (r: bool)
        ensures
            r == self.contains_id(id@),
    {
        self.find(id).is_some()
    }

    /// Borrow the value stored under `id`.
    pub fn get(&self, id: &str) -> (r: Option<&V>)
        requires
            self.wf(),
        ensures
            match r {
                Some(v) => self.contains_id(id@) && *v == self.value_of(id@),
                None => !self.contains_id(id@),
            },
    {
        match self.find(id) {
            Some(i) => {
                proof {
                    lemma_unique_index(self, id@, i as int);
                }
                Some(&self.entries[i].1)
            },
            None => None,
        }
    }

    /// Store `value` under `id`, replacing any existing entry.
    pub fn insert(&mut self, id: String, value: V)
        requires
            old(self).wf(),
        ensures
            final(self).wf(),
            final(self).contains_id(id@),
            final(self).value_of(id@) == value,
            forall|k: Seq<char>|
                k != id@ ==> final(self).contains_id(k) == old(self).contains_id(k),
            forall|k: Seq<char>|
                k != id@ && old(self).contains_id(k) ==> final(self).value_of(k) == old(
                    self,
                ).value_of(k),
            old(self).contains_id(id@) ==> final(self).spec_len() == old(self).spec_len(),
            !old(self).contains_id(id@) ==> final(self).spec_len() == old(self).spec_len() + 1,
    {
        let ghost pre = *self;
        match self.find(id.as_str()) {
            Some(i) => {
                proof {
                    lemma_unique_index(self, id@, i as int);
                }
                let _ = self.entries.remove(i);
                proof {
                    lemma_remove_preserves(pre, *self, i as int);
                    assert(!self.contains_id(id@));
                }
            },
            None => {
            },
        }
        let ghost mid = *self;
        self.entries.push((id, value));
        proof {
            assert(self.entries@.subrange(0, mid.entries@.len() as int) =~= mid.entries@);
            lemma_push_preserves(mid, *self);
            assert(self.entries@.last().0@ == id@);
            assert(self.contains_id(id@)) by {
                assert(self.entries@[self.entries@.len() - 1].0@ == id@);
            }
            lemma_unique_index(self, id@, self.entries@.len() - 1);
        }
    }

    /// Remove and return the value stored under `id`, if any.
    pub fn take(&mut self, id: &str) -> (r: Option<V>)
        requires
            old(self).wf(),
        ensures
            final(self).wf(),
            !final(self).contains_id(id@),
            match r {
                Some(v) => old(self).contains_id(id@) && v == old(self).value_of(id@)
                    && final(self).spec_len() + 1 == old(self).spec_len(),
                None => !old(self).contains_id(id@) && *old(self) == *final(self),
            },
            forall|k: Seq<char>|
                k != id@ ==> final(self).contains_id(k) == old(self).contains_id(k),
            forall|k: Seq<char>|
                k != id@ && old(self).contains_id(k) ==> final(self).value_of(k) == old(
                    self,
                ).value_of(k),
    {
        let ghost pre = *self;
        match self.find(id) {
            Some(i) => {
                proof {
                    lemma_unique_index(self, id@, i as int);
                }
                let entry = self.entries.remove(i);
                proof {
                    lemma_remove_preserves(pre, *self, i as int);
                }
                Some(entry.1)
            },
            None => None,
        }
    }
}

/// A table that holds an entry is not empty.
pub proof fn lemma_contains_nonempty<V>(t: &StrTable<V>, id: Seq<char>)
    requires
        t.contains_id(id),
    ensures
        t.spec_len() > 0,
{
}

/// With distinct keys, a matching index is the chosen one.
proof fn lemma_unique_index<V>(t: &StrTable<V>, id: Seq<char>, i: int)
    requires
        t.wf(),
        0 <= i < t.entries@.len(),
        t.entries@[i].0@ == id,
    ensures
        t.contains_id(id),
        t.index_of(id) == i,
        t.value_of(id) == t.entries@[i].1,
{
    assert(t.contains_id(id));
    let j = t.index_of(id);
    if i != j {
        if i < j {
            assert(t.entries@[i].0@ != t.entries@[j].0@);
        } else {
            assert(t.entries@[j].0@ != t.entries@[i].0@);
        }
    }
}

/// Removing the entry at `i` keeps the invariant and all other keys.
proof fn lemma_remove_preserves<V>(pre: StrTable<V>, post: StrTable<V>, i: int)
    requires
        pre.wf(),
        0 <= i < pre.entries@.len(),
        post.entries@ == pre.entries@.remove(i),
    ensures
        post.wf(),
        !post.contains_id(pre.entries@[i].0@),
        forall|k: Seq<char>|
            k != pre.entries@[i].0@ ==> post.contains_id(k) == pre.contains_id(k),
        forall|k: Seq<char>|
            k != pre.entries@[i].0@ && pre.contains_id(k) ==> post.value_of(k) == pre.value_of(k),
{
    let id = pre.entries@[i].0@;
    assert forall|a: int, b: int|
        0 <= a < b < post.entries@.len() implies post.entries@[a].0@ != post.entries@[b].0@ by {
        let a0 = if a < i {
            a
        } else {
            a + 1
        };
        let b0 = if b < i {
            b
        } else {
            b + 1
        };
        assert(post.entries@[a] == pre.entries@[a0]);
        assert(post.entries@[b] == pre.entries@[b0]);
    }
    assert forall|j: int|
        0 <= j < post.entries@.len() implies post.entries@[j].0@ != id by {
        let j0 = if j < i {
            j
        } else {
            j + 1
        };
        assert(post.entries@[j] == pre.entries@[j0]);
    }
    assert forall|k: Seq<char>| k != id implies post.contains_id(k) == pre.contains_id(k) by {
        if pre.contains_id(k) {
            let j0 = choose|j: int| 0 <= j < pre.entries@.len() && pre.entries@[j].0@ == k;
            let j = if j0 < i {
                j0
            } else {
                j0 - 1
            };
            assert(post.entries@[j] == pre.entries@[j0]);
            assert(post.contains_id(k));
        }
        if post.contains_id(k) {
            let j = choose|j: int| 0 <= j < post.entries@.len() && post.entries@[j].0@ == k;
            let j0 = if j < i {
                j
            } else {
                j + 1
            };
            assert(post.entries@[j] == pre.entries@[j0]);
            assert(pre.contains_id(k));
        }
    }
    assert forall|k: Seq<char>|
        k != id && pre.contains_id(k) implies post.value_of(k) == pre.value_of(k) by {
        let j = post.index_of(k);
        assert(post.contains_id(k));
        assert(0 <= j < post.entries@.len() && post.entries@[j].0@ == k);
        let j0 = if j < i {
            j
        } else {
            j + 1
        };
        assert(post.entries@[j] == pre.entries@[j0]);
        lemma_unique_index(&pre, k, j0);
    }
}

/// Pushing a fresh entry keeps all existing keys and values.
proof fn lemma_push_preserves<V>(pre: StrTable<V>, post: StrTable<V>)
    requires
        pre.wf(),
        post.entries@.len() == pre.entries@.len() + 1,
        post.entries@.subrange(0, pre.entries@.len() as int) == pre.entries@,
        !pre.contains_id(post.entries@.last().0@),
    ensures
        post.wf(),
        forall|k: Seq<char>|
            k != post.entries@.last().0@ ==> post.contains_id(k) == pre.contains_id(k),
        forall|k: Seq<char>|
            k != post.entries@.last().0@ && pre.contains_id(k) ==> post.value_of(k)
                == pre.value_of(k),
{
    let id = post.entries@.last().0@;
    let n = pre.entries@.len() as int;
    assert(forall|j: int| 0 <= j < n ==> post.entries@[j] == #[trigger] pre.entries@[j]) by {
        assert(forall|j: int|
            0 <= j < n ==> post.entries@.subrange(0, n)[j] == #[trigger] post.entries@[j]);
    }
    assert forall|a: int, b: int|
        0 <= a < b < post.entries@.len() implies post.entries@[a].0@ != post.entries@[b].0@ by {
        if b < n {
            assert(pre.entries@[a].0@ != pre.entries@[b].0@);
        } else {
            assert(post.entries@[b].0@ == id);
            assert(post.entries@[a] == pre.entries@[a]);
            if post.entries@[a].0@ == id {
                assert(pre.contains_id(id));
            }
        }
    }
    assert forall|k: Seq<char>| k != id implies post.contains_id(k) == pre.contains_id(k) by {
        if pre.contains_id(k) {
            let j = choose|j: int| 0 <= j < pre.entries@.len() && pre.entries@[j].0@ == k;
            assert(post.entries@[j].0@ == k);
        }
        if post.contains_id(k) {
            let j = choose|j: int| 0 <= j < post.entries@.len() && post.entries@[j].0@ == k;
            assert(j < n);
            assert(pre.entries@[j].0@ == k);
        }
    }
    assert forall|k: Seq<char>|
        k != id && pre.contains_id(k) implies post.value_of(k) == pre.value_of(k) by {
        assert(post.contains_id(k));
        let j = post.index_of(k);
        assert(0 <= j < post.entries@.len() && post.entries@[j].0@ == k);
        assert(j < n);
        assert(post.entries@[j] == pre.entries@[j]);
        lemma_unique_index(&pre, k, j);
        assert(post.wf());
        let jp = post.index_of(k);
        assert(0 <= jp < post.entries@.len() && post.entries@[jp].0@ == k);
        if jp != j {
            if jp < j {
                assert(post.entries@[jp].0@ != post.entries@[j].0@);
            } else {
                assert(post.entries@[j].0@ != post.entries@[jp].0@);
            }
        }
    }
}

} // verus!
