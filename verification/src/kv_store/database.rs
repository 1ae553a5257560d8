//! The key-value database: a mapping from string keys to stored values. Its
//! abstract model is a `Map` from key characters to stored-value models; the
//! concrete table is an association list with one entry per key.
use vstd::prelude::*;

use crate::kv_store::kv_error::{KVError, KVErrorView};
use crate::kv_store::stored_type::{StoredType, StoredView};

verus! {

/// A mapping from keys to stored values. `read` returns the current value or
/// reports an absent key; `insert` creates or overwrites the entry under a
/// key. A backend whose guard can fail may instead report the store as
/// unavailable; one that declares itself infallible owes the plain outcome.
pub trait KVDatabase: Sized {
    /// The mapping the database currently holds.
    spec fn model(&self) -> Map<Seq<char>, StoredView>;

    /// Whether this backend can never report the store as unavailable. An
    /// in-memory table is infallible; a guard that can be poisoned is not.
    spec fn infallible(&self) -> bool;

    /// Return the value currently stored under `key`.
    fn read(&self, key: String) -> (r: Result<StoredType, KVError>)
        ensures
            r matches Ok(v) ==> self.model().contains_key(key@) && v@ == self.model()[key@],
            r matches Err(e) ==> (e@ == KVErrorView::not_found() && !self.model().contains_key(
                key@,
            )) || (e@ == KVErrorView::unavailable() && !self.infallible()),
    ;

    /// Create or overwrite the entry under `key`.
    fn insert(&mut self, key: String, value: StoredType) -> (r: Result<(), KVError>)
        ensures
            r matches Ok(_) ==> final (self).model() == old(self).model().insert(key@, value@),
            r matches Err(e) ==> e@ == KVErrorView::unavailable() && !old(self).infallible()
                && final (self).model() == old(self).model(),
            final (self).infallible() == old(self).infallible(),
    ;
}

/// Whether each key occurs at most once among the entries.
spec fn unique_keys(entries: Seq<(String, StoredType)>) -> bool {
    forall|i: int, j: int|
        0 <= i < j < entries.len() ==> (#[trigger] entries[i]).0@ != (#[trigger] entries[j]).0@
}

/// The mapping an entry sequence stands for.
spec fn entries_map(entries: Seq<(String, StoredType)>) -> Map<Seq<char>, StoredView>
    decreases entries.len(),
{
    if entries.len() == 0 {
        Map::empty()
    } else {
        entries_map(entries.drop_last()).insert(entries.last().0@, entries.last().1@)
    }
}

/// A key is in the mapping exactly when some entry carries it.
proof fn lemma_entries_map_dom(entries: Seq<(String, StoredType)>, k: Seq<char>)
    ensures
        entries_map(entries).contains_key(k) <==> (exists|i: int|
            0 <= i < entries.len() && (#[trigger] entries[i]).0@ == k),
    decreases entries.len(),
{
    if entries.len() > 0 {
        lemma_entries_map_dom(entries.drop_last(), k);
        if entries.last().0@ == k {
            assert(entries[entries.len() - 1].0@ == k);
        } else {
            if entries_map(entries).contains_key(k) {
                let i = choose|i: int|
                    0 <= i < entries.drop_last().len() && (#[trigger] entries.drop_last()[i]).0@
                        == k;
                assert(entries[i].0@ == k);
            }
            if exists|i: int| 0 <= i < entries.len() && (#[trigger] entries[i]).0@ == k {
                let i = choose|i: int| 0 <= i < entries.len() && (#[trigger] entries[i]).0@ == k;
                assert(i < entries.len() - 1);
                assert(entries.drop_last()[i].0@ == k);
            }
        }
    }
}

/// With unique keys, the mapping sends each entry's key to its value.
proof fn lemma_entries_map_at(entries: Seq<(String, StoredType)>, i: int)
    requires
        unique_keys(entries),
        0 <= i < entries.len(),
    ensures
        entries_map(entries).contains_key(entries[i].0@),
        entries_map(entries)[entries[i].0@] == entries[i].1@,
    decreases entries.len(),
{
    if i < entries.len() - 1 {
        assert(unique_keys(entries.drop_last()));
        lemma_entries_map_at(entries.drop_last(), i);
        assert(entries.drop_last()[i] == entries[i]);
        assert(entries[i].0@ != entries.last().0@);
    }
}

/// With unique keys, replacing the entry at `i` by one carrying the same key
/// overwrites exactly that key's value in the mapping, and keeps the keys
/// unique.
proof fn lemma_entries_map_update(
    entries: Seq<(String, StoredType)>,
    i: int,
    p: (String, StoredType),
)
    requires
        unique_keys(entries),
        0 <= i < entries.len(),
        p.0@ == entries[i].0@,
    ensures
        entries_map(entries.update(i, p)) == entries_map(entries).insert(p.0@, p.1@),
        unique_keys(entries.update(i, p)),
    decreases entries.len(),
{
    assert forall|a: int, b: int| 0 <= a < b < entries.update(i, p).len() implies (
    #[trigger] entries.update(i, p)[a]).0@ != (#[trigger] entries.update(i, p)[b]).0@ by {
        assert(entries.update(i, p)[a].0@ == entries[a].0@);
        assert(entries.update(i, p)[b].0@ == entries[b].0@);
    }
    if i == entries.len() - 1 {
        assert(entries.update(i, p).drop_last() =~= entries.drop_last());
        assert(entries.update(i, p).last() == p);
        assert(entries_map(entries.drop_last()).insert(p.0@, p.1@) =~= entries_map(
            entries.drop_last(),
        ).insert(entries.last().0@, entries.last().1@).insert(p.0@, p.1@));
    } else {
        assert(unique_keys(entries.drop_last()));
        lemma_entries_map_update(entries.drop_last(), i, p);
        assert(entries.update(i, p).drop_last() =~= entries.drop_last().update(i, p));
        assert(entries.update(i, p).last() == entries.last());
        assert(p.0@ != entries.last().0@);
        assert(entries_map(entries.drop_last()).insert(p.0@, p.1@).insert(
            entries.last().0@,
            entries.last().1@,
        ) =~= entries_map(entries.drop_last()).insert(entries.last().0@, entries.last().1@).insert(
            p.0@,
            p.1@,
        ));
    }
}

/// The in-memory table behind the service: one entry per key, created on
/// first write, replaced on overwrite, never evicted.
pub struct Store {
    entries: Vec<(String, StoredType)>,
}

impl Store {
    #[verifier::type_invariant]
    spec fn inv(&self) -> bool {
        unique_keys(self.entries@)
    }

    /// A store holding nothing.
    pub fn new() -> (r: Store)
        ensures
            r.model() == Map::<Seq<char>, StoredView>::empty(),
    {
        Store { entries: Vec::new() }
    }
}

impl Default for Store {
    /// A fresh store holds nothing.
    fn default() -> (r: Self)
        ensures
            r.model() == Map::<Seq<char>, StoredView>::empty(),
    {
        Store::new()
    }
}

impl KVDatabase for Store {
    closed spec fn model(&self) -> Map<Seq<char>, StoredView> {
        entries_map(self.entries@)
    }

    /// An in-memory table has no guard that could fail.
    open spec fn infallible(&self) -> bool {
        true
    }

    /// Reading an in-memory table cannot fail to reach it: the result is
    /// the stored value, or `not_found` exactly when the key is absent.
    fn read(&self, key: String) -> (r: Result<StoredType, KVError>)
        ensures
            self.model().contains_key(key@) ==> (r matches Ok(v) && v@ == self.model()[key@]),
            !self.model().contains_key(key@) ==> (r matches Err(e) && e@
                == KVErrorView::not_found()),
    {
        let n = self.entries.len();
        let mut idx: usize = 0;
        while idx < n
            invariant
                n == self.entries.len(),
                idx <= n,
                forall|j: int| 0 <= j < idx ==> (#[trigger] self.entries@[j]).0@ != key@,
            decreases n - idx,
        {
            if self.entries[idx].0 == key {
                let value = self.entries[idx].1.clone();
                proof {
                    use_type_invariant(self);
                    lemma_entries_map_at(self.entries@, idx as int);
                }
                return Ok(value);
            }
            idx += 1;
        }
        proof {
            lemma_entries_map_dom(self.entries@, key@);
        }
        Err(KVError::not_found())
    }

    /// Writing to an in-memory table always succeeds: the entry under the
    /// key is created or replaced, and no other entry moves.
    fn insert(&mut self, key: String, value: StoredType) -> (r: Result<(), KVError>)
        ensures
            r matches Ok(_) && final (self).model() == old(self).model().insert(key@, value@),
    {
        proof {
            use_type_invariant(&*self);
        }
        let ghost original = self.entries@;
        let mut entries: Vec<(String, StoredType)> = Vec::new();
        core::mem::swap(&mut entries, &mut self.entries);
        let n = entries.len();
        let mut idx: usize = 0;
        while idx < n
            invariant
                n == entries.len(),
                entries@ == original,
                original == old(self).entries@,
                unique_keys(original),
                idx <= n,
                forall|j: int| 0 <= j < idx ==> (#[trigger] original[j]).0@ != key@,
            decreases n - idx,
        {
            if entries[idx].0 == key {
                proof {
                    lemma_entries_map_update(original, idx as int, (key, value));
                }
                entries[idx] = (key, value);
                core::mem::swap(&mut entries, &mut self.entries);
                proof {
                    assert(self.entries@ =~= original.update(idx as int, (key, value)));
                }
                return Ok(());
            }
            idx += 1;
        }
        entries.push((key, value));
        proof {
            assert(entries@.drop_last() =~= original);
            assert(unique_keys(entries@));
        }
        core::mem::swap(&mut entries, &mut self.entries);
        proof {
            assert(entries_map(self.entries@) =~= entries_map(original).insert(key@, value@));
        }
        Ok(())
    }
}

/// Law: a key never written is absent. A fresh store's model holds no key,
/// and a write under a different key leaves an absent key absent; with
/// `read`'s contract, reading such a key reports `not_found`.
pub proof fn lemma_unwritten_key_absent(
    m: Map<Seq<char>, StoredView>,
    k: Seq<char>,
    k2: Seq<char>,
    v: StoredView,
)
    requires
        !m.contains_key(k),
        k2 != k,
    ensures
        !Map::<Seq<char>, StoredView>::empty().contains_key(k),
        !m.insert(k2, v).contains_key(k),
{
}

/// Law: write-read round trip. After a successful `insert` of `v` under `k`
/// the model maps `k` to `v`, and keeps doing so across writes to other
/// keys; with `read`'s contract, `read(k)` returns exactly `v` until the
/// next write to `k`.
pub proof fn lemma_write_then_read(
    m: Map<Seq<char>, StoredView>,
    k: Seq<char>,
    v: StoredView,
    k2: Seq<char>,
    v2: StoredView,
)
    ensures
        m.insert(k, v).contains_key(k),
        m.insert(k, v)[k] == v,
        k2 != k ==> m.insert(k, v).insert(k2, v2)[k] == v,
{
}

/// Law: overwrite. Writing `v1` then `v2` under one key leaves the model
/// sending that key to `v2`: the later write replaces the earlier one
/// entirely.
pub proof fn lemma_overwrite(
    m: Map<Seq<char>, StoredView>,
    k: Seq<char>,
    v1: StoredView,
    v2: StoredView,
)
    ensures
        m.insert(k, v1).insert(k, v2).contains_key(k),
        m.insert(k, v1).insert(k, v2)[k] == v2,
{
}

} // verus!
