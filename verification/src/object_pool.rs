//! The per-kind resource pool: a counter of issued handles and a mapping
//! from handle to owned resource instance.
//!
//! Handle `0` is reserved ("no object / default object") and never keyed.
//! The counter never falls behind any key ever inserted: binding an
//! as-yet-unknown handle is legal and must retroactively raise the counter
//! so that a later `allocate` can never collide with it.

use vstd::prelude::*;

verus! {

use crate::gl_sys::GLuint;

/// Per-kind construction of the default-initialized resource instance that
/// the lazy get-or-create step inserts.
pub trait Resource: Sized {
    /// The default-initialized instance, as a specification value.
    spec fn fresh_spec() -> Self;

    /// Build the default-initialized instance.
    fn fresh() -> (object: Self)
        ensures
            object == Self::fresh_spec(),
    ;

    /// The instance after its deletion cleanup ran: any backend-materialized
    /// state has been released.
    spec fn cleaned(self) -> Self;

    /// Release any backend-materialized state; the delete pipeline runs this
    /// on an instance just before removing it from the pool.
    fn cleanup(&mut self)
        ensures
            *final(self) == old(self).cleaned(),
    ;
}

/// A pool of resource instances of one kind, keyed by non-zero handle.
#[derive(Debug)]
pub struct ObjectPool<T> {
    index: GLuint,
    entries: Vec<(GLuint, T)>,
}

/// Whether no two entries of an association list share a key.
spec fn keys_distinct<T>(entries: Seq<(GLuint, T)>) -> bool {
    forall|i: int, j: int|
        0 <= i < j < entries.len() ==> entries[i].0 != entries[j].0
}

/// The mapping an association list stands for; later entries would win,
/// though the pool keeps its keys distinct so the case never arises.
spec fn assoc_map<T>(entries: Seq<(GLuint, T)>) -> Map<GLuint, T>
    decreases entries.len(),
{
    if entries.len() == 0 {
        Map::empty()
    } else {
        assoc_map(entries.drop_last()).insert(entries.last().0, entries.last().1)
    }
}

proof fn lemma_assoc_map_contains<T>(entries: Seq<(GLuint, T)>, index: GLuint)
    ensures
        assoc_map(entries).contains_key(index) <==> exists|i: int|
            0 <= i < entries.len() && entries[i].0 == index,
    decreases entries.len(),
{
    if entries.len() > 0 {
        let prefix = entries.drop_last();
        lemma_assoc_map_contains(prefix, index);
        let last = entries.len() - 1;
        if entries.last().0 == index {
            assert(0 <= last < entries.len() && entries[last].0 == index);
        } else {
            if assoc_map(entries).contains_key(index) {
                let i = choose|i: int| 0 <= i < prefix.len() && prefix[i].0 == index;
                assert(0 <= i < entries.len() && entries[i].0 == index);
            }
            if exists|i: int| 0 <= i < entries.len() && entries[i].0 == index {
                let i = choose|i: int| 0 <= i < entries.len() && entries[i].0 == index;
                assert(i < last);
                assert(prefix[i].0 == index);
            }
        }
    }
}

proof fn lemma_assoc_map_value<T>(entries: Seq<(GLuint, T)>, i: int)
    requires
        keys_distinct(entries),
        0 <= i < entries.len(),
    ensures
        assoc_map(entries).contains_key(entries[i].0),
        assoc_map(entries)[entries[i].0] == entries[i].1,
    decreases entries.len(),
{
    let last = entries.len() - 1;
    if i < last {
        let prefix = entries.drop_last();
        lemma_assoc_map_value(prefix, i);
        assert(entries[i].0 != entries[last].0);
    }
}

proof fn lemma_assoc_map_update<T>(entries: Seq<(GLuint, T)>, i: int, value: T)
    requires
        keys_distinct(entries),
        0 <= i < entries.len(),
    ensures
        assoc_map(entries.update(i, (entries[i].0, value))) == assoc_map(entries).insert(
            entries[i].0,
            value,
        ),
    decreases entries.len(),
{
    let key = entries[i].0;
    let updated = entries.update(i, (key, value));
    let last = entries.len() - 1;
    if i == last {
        assert(updated.drop_last() =~= entries.drop_last());
        assert(assoc_map(updated) =~= assoc_map(entries).insert(key, value));
    } else {
        let prefix = entries.drop_last();
        lemma_assoc_map_update(prefix, i, value);
        assert(updated.drop_last() =~= prefix.update(i, (key, value)));
        assert(updated.last() == entries.last());
        assert(key != entries[last].0);
        assert(assoc_map(updated) =~= assoc_map(entries).insert(key, value));
    }
}

proof fn lemma_assoc_map_remove<T>(entries: Seq<(GLuint, T)>, i: int)
    requires
        keys_distinct(entries),
        0 <= i < entries.len(),
    ensures
        assoc_map(entries.remove(i)) == assoc_map(entries).remove(entries[i].0),
    decreases entries.len(),
{
    let key = entries[i].0;
    let last = entries.len() - 1;
    if i == last {
        assert(entries.remove(i) =~= entries.drop_last());
        lemma_assoc_map_contains(entries.drop_last(), key);
        assert(forall|j: int|
            0 <= j < entries.drop_last().len() ==> entries.drop_last()[j].0 != key);
        assert(!assoc_map(entries.drop_last()).contains_key(key));
        assert(assoc_map(entries.remove(i)) =~= assoc_map(entries).remove(key));
    } else {
        let prefix = entries.drop_last();
        lemma_assoc_map_remove(prefix, i);
        assert(entries.remove(i).drop_last() =~= prefix.remove(i));
        assert(entries.remove(i).last() == entries.last());
        assert(key != entries[last].0);
        assert(assoc_map(entries.remove(i)) =~= assoc_map(entries).remove(key));
    }
}

impl<T> ObjectPool<T> {
    /// The next handle to allocate is this value plus one.
    pub closed spec fn counter(self) -> GLuint {
        self.index
    }

    /// The handle-to-instance mapping the pool holds.
    pub closed spec fn contents(self) -> Map<GLuint, T> {
        assoc_map(self.entries@)
    }

    /// Whether `index` currently names an instance in the pool.
    pub open spec fn has(self, index: GLuint) -> bool {
        self.contents().contains_key(index)
    }

    /// The pool's invariant: keys are distinct, never zero, and never
    /// ahead of the counter.
    pub closed spec fn wf(self) -> bool {
        &&& keys_distinct(self.entries@)
        &&& forall|i: int|
            0 <= i < self.entries@.len() ==> 0 < #[trigger] self.entries@[i].0 <= self.index
    }

    /// A well-formed pool keys no handle of zero and no handle ahead of
    /// its counter.
    pub proof fn lemma_wf_bounds(self, index: GLuint)
        requires
            self.wf(),
            self.has(index),
        ensures
            0 < index <= self.counter(),
    {
        lemma_assoc_map_contains(self.entries@, index);
        let i = choose|i: int| 0 <= i < self.entries@.len() && self.entries@[i].0 == index;
        assert(0 < self.entries@[i].0 <= self.index);
    }

    /// The transition `allocate` makes, relating the pool before, the pool
    /// after, and the handle returned.
    pub open spec fn allocate_post(self, post: Self, object_name: GLuint) -> bool {
        &&& object_name == self.counter() + 1
        &&& post.counter() == object_name
        &&& post.contents() == self.contents()
    }

    /// The transition `deallocate` makes.
    pub open spec fn deallocate_post(self, post: Self, index: GLuint, existed: bool) -> bool {
        &&& existed == self.has(index)
        &&& post.counter() == self.counter()
        &&& post.contents() == self.contents().remove(index)
    }
}

impl<T: Resource> ObjectPool<T> {
    /// An empty pool: no instances, no handle issued yet.
    pub fn new() -> (pool: Self)
        ensures
            pool.wf(),
            pool.counter() == 0,
            pool.contents() == Map::<GLuint, T>::empty(),
    {
        ObjectPool { index: 0, entries: Vec::new() }
    }

    /// Issue the next handle. Handles are never reused and never zero; the
    /// mapping is untouched, so the new handle names no instance yet.
    pub fn allocate(&mut self) -> (object_name: GLuint)
        requires
            old(self).wf(),
            old(self).counter() < u32::MAX,
        ensures
            old(self).allocate_post(*final(self), object_name),
            object_name > 0,
            final(self).wf(),
    {
        self.index += 1;
        self.index
    }

    /// Remove the instance `index` names, reporting whether one existed.
    /// The counter is untouched, so the handle is never reissued.
    pub fn deallocate(&mut self, index: GLuint) -> (existed: bool)
        requires
            old(self).wf(),
        ensures
            old(self).deallocate_post(*final(self), index, existed),
            final(self).wf(),
    {
        let position = self.find_entry(index);
        match position {
            Some(i) => {
                proof {
                    lemma_assoc_map_contains(self.entries@, index);
                    lemma_assoc_map_remove(self.entries@, i as int);
                    lemma_keys_distinct_remove(self.entries@, i as int);
                }
                self.entries.remove(i);
                true
            },
            None => {
                proof {
                    lemma_assoc_map_contains(self.entries@, index);
                    assert(self.contents().remove(index) =~= self.contents());
                }
                false
            },
        }
    }

    /// Look up `index`, or lazily insert a default-initialized instance
    /// for it, raising the counter to at least `index` so that a later
    /// `allocate` can never collide with it. This lazy path exists because
    /// the modeled interface permits binding an unallocated-but-named
    /// handle and treats that as implicit creation.
    pub fn get_object_mut(&mut self, index: GLuint) -> (object: &mut T)
        requires
            old(self).wf(),
            index != 0,
        ensures
            *object == if old(self).has(index) {
                old(self).contents()[index]
            } else {
                T::fresh_spec()
            },
            final(self).contents() == old(self).contents().insert(index, *final(object)),
            final(self).counter() == if index > old(self).counter() {
                index
            } else {
                old(self).counter()
            },
            final(self).wf(),
    {
        if self.index < index {
            self.index = index;
        }
        let position = self.find_entry(index);
        match position {
            Some(i) => {
                proof {
                    lemma_assoc_map_contains(self.entries@, index);
                    lemma_assoc_map_value(self.entries@, i as int);
                }
                let ghost snapshot = self.entries@;
                let object = entry_value_mut(&mut self.entries, i);
                proof {
                    lemma_assoc_map_update(snapshot, i as int, *final(object));
                    lemma_keys_distinct_update(snapshot, i as int, *final(object));
                }
                object
            },
            None => {
                proof {
                    lemma_assoc_map_contains(self.entries@, index);
                }
                self.entries.push((index, T::fresh()));
                let i = self.entries.len() - 1;
                let ghost snapshot = self.entries@;
                proof {
                    assert(snapshot.drop_last() =~= old(self).entries@);
                    assert forall|a: int, b: int| 0 <= a < b < snapshot.len() implies snapshot[a].0
                        != snapshot[b].0 by {
                        if b + 1 == snapshot.len() {
                            assert(snapshot[a] == old(self).entries@[a]);
                        }
                    }
                    assert(keys_distinct(snapshot));
                    assert(assoc_map(snapshot) == assoc_map(old(self).entries@).insert(
                        index,
                        T::fresh_spec(),
                    ));
                }
                let object = entry_value_mut(&mut self.entries, i);
                proof {
                    lemma_assoc_map_update(snapshot, i as int, *final(object));
                    lemma_keys_distinct_update(snapshot, i as int, *final(object));
                    assert(assoc_map(old(self).entries@).insert(index, T::fresh_spec()).insert(
                        index,
                        *final(object),
                    ) =~= assoc_map(old(self).entries@).insert(index, *final(object)));
                }
                object
            },
        }
    }

    /// Whether `index` currently names an instance in the pool.
    pub fn is_object_exists(&self, index: GLuint) -> (present: bool)
        ensures
            present == self.has(index),
    {
        let position = self.find_entry(index);
        proof {
            lemma_assoc_map_contains(self.entries@, index);
        }
        position.is_some()
    }

    /// Read-only access to the pool's (handle, instance) entries. The
    /// entries are handed out immutably so that the pool's invariant
    /// cannot be broken from outside.
    pub fn get_objects_mut(&mut self) -> (objects: &Vec<(GLuint, T)>)
        requires
            old(self).wf(),
        ensures
            *final(self) == *old(self),
            objects@.len() == old(self).contents().dom().len(),
            forall|i: int|
                0 <= i < objects@.len() ==> old(self).has(#[trigger] objects@[i].0) && old(
                    self,
                ).contents()[objects@[i].0] == objects@[i].1,
    {
        proof {
            lemma_assoc_map_len(self.entries@);
            assert forall|i: int| 0 <= i < self.entries@.len() implies self.has(
                #[trigger] self.entries@[i].0,
            ) && self.contents()[self.entries@[i].0] == self.entries@[i].1 by {
                lemma_assoc_map_value(self.entries@, i);
            }
        }
        &self.entries
    }

    /// Position of the entry keyed `index`, if any.
    fn find_entry(&self, index: GLuint) -> (position: Option<usize>)
        ensures
            match position {
                Some(i) => i < self.entries@.len() && self.entries@[i as int].0 == index,
                None => forall|j: int| 0 <= j < self.entries@.len() ==> self.entries@[j].0 != index,
            },
    {
        let n = self.entries.len();
        let mut i: usize = 0;
        while i < n
            invariant
                i <= n,
                n == self.entries@.len(),
                forall|j: int| 0 <= j < i ==> self.entries@[j].0 != index,
            decreases n - i,
        {
            if self.entries[i].0 == index {
                return Some(i);
            }
            i += 1;
        }
        None
    }
}

proof fn lemma_keys_distinct_update<T>(entries: Seq<(GLuint, T)>, i: int, value: T)
    requires
        keys_distinct(entries),
        0 <= i < entries.len(),
    ensures
        keys_distinct(entries.update(i, (entries[i].0, value))),
{
    let updated = entries.update(i, (entries[i].0, value));
    assert forall|a: int, b: int| 0 <= a < b < updated.len() implies updated[a].0
        != updated[b].0 by {
        assert(updated[a].0 == entries[a].0);
        assert(updated[b].0 == entries[b].0);
    }
}

proof fn lemma_keys_distinct_remove<T>(entries: Seq<(GLuint, T)>, i: int)
    requires
        keys_distinct(entries),
        0 <= i < entries.len(),
    ensures
        keys_distinct(entries.remove(i)),
{
    let removed = entries.remove(i);
    assert forall|a: int, b: int| 0 <= a < b < removed.len() implies removed[a].0
        != removed[b].0 by {
        let a0 = if a < i {
            a
        } else {
            a + 1
        };
        let b0 = if b < i {
            b
        } else {
            b + 1
        };
        assert(removed[a] == entries[a0]);
        assert(removed[b] == entries[b0]);
    }
}

proof fn lemma_assoc_map_len<T>(entries: Seq<(GLuint, T)>)
    requires
        keys_distinct(entries),
    ensures
        assoc_map(entries).dom().len() == entries.len(),
        assoc_map(entries).dom().finite(),
    decreases entries.len(),
{
    if entries.len() > 0 {
        let prefix = entries.drop_last();
        lemma_assoc_map_len(prefix);
        lemma_assoc_map_contains(prefix, entries.last().0);
    }
}

/// A mutable borrow of the instance stored in `entries[i]`; the handle in
/// the entry is untouched.
fn entry_value_mut<T>(entries: &mut Vec<(GLuint, T)>, i: usize) -> (value: &mut T)
    requires
        i < old(entries).len(),
    ensures
        *value == old(entries)@[i as int].1,
        final(entries)@ == old(entries)@.update(
            i as int,
            (old(entries)@[i as int].0, *final(value)),
        ),
{
    &mut entries[i].1
}

/// Handles returned by successive `allocate` calls are strictly increasing
/// and never zero, however many other pool operations run in between: no
/// operation ever lowers the counter.
pub proof fn lemma_allocate_handles_strictly_increasing<T>(
    pool0: ObjectPool<T>,
    pool1: ObjectPool<T>,
    later0: ObjectPool<T>,
    later1: ObjectPool<T>,
    first: GLuint,
    second: GLuint,
)
    requires
        pool0.allocate_post(pool1, first),
        pool1.counter() <= later0.counter(),
        later0.allocate_post(later1, second),
    ensures
        0 < first,
        first < second,
{
}

/// A handle names no instance in an empty pool; `allocate` alone adds no
/// instance, even for the handle it returns; and after `deallocate(h)` the
/// pool no longer holds `h`, whatever it held before. An instance appears
/// only through the lazy get-or-create step.
pub proof fn lemma_handle_lifecycle<T>(
    pre: ObjectPool<T>,
    post: ObjectPool<T>,
    h: GLuint,
    object_name: GLuint,
    existed: bool,
)
    ensures
        !Map::<GLuint, T>::empty().contains_key(h),
        pre.allocate_post(post, object_name) ==> post.has(h) == pre.has(h),
        pre.deallocate_post(post, h, existed) ==> !post.has(h),
{
}

} // verus!
