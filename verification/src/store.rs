//! A model of the entity-component store's read side.
//!
//! The real store is an external collaborator; the passes only need two of
//! its capabilities: looking a component up by entity, and walking the
//! entities that possess a component in the store's own order. A `Store<T>`
//! holds rows of `(entity, component)` pairs and exposes exactly those two
//! operations, with a sequence view for contracts.

use vstd::prelude::*;

verus! {

/// The component of type `T` attached to each entity, in store order.
/// Entities are plain `u64` identifiers.
pub struct Store<T> {
    rows: Vec<(u64, T)>,
}

/// The component attached to `key` in `rows`: the first matching row's value,
/// or `None` when no row carries that entity.
pub open spec fn lookup<T>(rows: Seq<(u64, T)>, key: u64) -> Option<T>
    decreases rows.len(),
{
    if rows.len() == 0 {
        None
    } else if rows[0].0 == key {
        Some(rows[0].1)
    } else {
        lookup(rows.drop_first(), key)
    }
}

/// When no row carries `key`, every row's entity differs from `key`.
pub proof fn lemma_lookup_none<T>(rows: Seq<(u64, T)>, key: u64)
    requires
        lookup(rows, key) is None,
    ensures
        forall|i: int| 0 <= i < rows.len() ==> (#[trigger] rows[i]).0 != key,
    decreases rows.len(),
{
    if rows.len() > 0 {
        lemma_lookup_none(rows.drop_first(), key);
        assert(forall|i: int|
            1 <= i < rows.len() ==> #[trigger] rows[i] == rows.drop_first()[i - 1]);
    }
}

impl<T> View for Store<T> {
    type V = Seq<(u64, T)>;

    closed spec fn view(&self) -> Seq<(u64, T)> {
        self.rows@
    }
}

impl<T: Copy> Store<T> {
    /// Each entity appears in at most one row.
    pub open spec fn wf(&self) -> bool {
        forall|i: int, j: int|
            0 <= i < j < self@.len() ==> (#[trigger] self@[i]).0 != (#[trigger] self@[j]).0
    }

    /// An empty store.
    pub fn new() -> (s: Self)
        ensures
            s@ == Seq::<(u64, T)>::empty(),
            s.wf(),
    {
        Store { rows: Vec::new() }
    }

    /// Attaches `value` to `key`. A store gives an entity at most one
    /// component of a type, so the entity must not be present yet.
    pub fn insert(&mut self, key: u64, value: T)
        requires
            lookup(old(self)@, key) is None,
        ensures
            final(self)@ == old(self)@.push((key, value)),
            old(self).wf() ==> final(self).wf(),
    {
        proof {
            lemma_lookup_none(old(self)@, key);
        }
        self.rows.push((key, value));
    }

    /// The number of rows.
    pub fn len(&self) -> (n: usize)
        ensures
            n == self@.len(),
    {
        self.rows.len()
    }

    /// The row at position `i`, in store order.
    pub fn at(&self, i: usize) -> (row: (u64, T))
        requires
            i < self@.len(),
        ensures
            row == self@[i as int],
    {
        self.rows[i]
    }

    /// The component attached to `key`, if any.
    pub fn get(&self, key: u64) -> (r: Option<T>)
        ensures
            r == lookup(self@, key),
    {
        let n = self.rows.len();
        let mut i: usize = 0;
        proof {
            assert(self@.skip(0) =~= self@);
        }
        while i < n
            invariant
                n == self@.len(),
                i <= n,
                lookup(self@.skip(i as int), key) == lookup(self@, key),
            decreases n - i,
        {
            let row = self.rows[i];
            proof {
                assert(self@.skip(i as int)[0] == self@[i as int]);
            }
            if row.0 == key {
                return Some(row.1);
            }
            proof {
                assert(self@.skip(i as int).drop_first() =~= self@.skip(i as int + 1));
            }
            i += 1;
        }
        None
    }
}

} // verus!
