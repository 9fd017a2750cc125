//! Resources loaded once and shared by name. Each resource lives in a generational arena slot;
//! a handle is the slot's index and generation, checked on every lookup, so a stale handle is a
//! reported error rather than a wrong resource.
use vstd::prelude::*;

use generational_arena::{Arena, Index};
use std::marker::PhantomData;

verus! {

#[verifier::external_type_specification]
#[verifier::external_body]
#[verifier::reject_recursive_types(T)]
pub struct ExArena<T>(Arena<T>);

#[verifier::external_type_specification]
#[verifier::external_body]
pub struct ExIndex(Index);

/// The live entries of an arena of positions, by index.
pub uninterp spec fn arena_slots(a: Arena<usize>) -> Map<Index, usize>;

/// Relies on `Arena::new`: a new arena has no live entry.
#[verifier::external_body]
fn arena_new() -> (r: Arena<usize>)
    ensures
        arena_slots(r).dom() == Set::<Index>::empty(),
{
    Arena::new()
}

/// Relies on `Arena::insert`: the value is stored under a fresh index, one no live entry
/// has, and the other entries stay as they were.
#[verifier::external_body]
fn arena_insert(a: &mut Arena<usize>, value: usize) -> (r: Index)
    ensures
        !arena_slots(*old(a)).contains_key(r),
        arena_slots(*final(a)) == arena_slots(*old(a)).insert(r, value),
{
    a.insert(value)
}

/// Relies on `Arena::get`: the value of the live entry with this index and generation, if
/// there is one.
#[verifier::external_body]
fn arena_get(a: &Arena<usize>, i: Index) -> (r: Option<usize>)
    ensures
        r == if arena_slots(*a).contains_key(i) {
            Some(arena_slots(*a)[i])
        } else {
            None::<usize>
        },
{
    a.get(i).copied()
}

/// Errors of resource lookups.
#[derive(Debug)]
pub enum ResourceError {
    /// No resource was stored under this name.
    NotFound(String),
    /// The handle does not name a live resource.
    InvalidHandle,
}

/// A typed handle to a resource of a `ResourceCache<R>`.
pub struct Handle<R> {
    index: Index,
    marker: PhantomData<R>,
}

impl<R> Clone for Handle<R> {
    fn clone(&self) -> (r: Self)
        ensures
            r.spec_index() == self.spec_index(),
    {
        Handle { index: self.index, marker: PhantomData }
    }
}

impl<R> Copy for Handle<R> {
}

impl<R> Handle<R> {
    pub closed spec fn spec_index(&self) -> Index {
        self.index
    }

    /// The arena index the handle stands for.
    pub fn index(&self) -> (r: Index)
        ensures
            r == self.spec_index(),
    {
        self.index
    }
}

/// Resources stored by name.
pub struct ResourceCache<R> {
    resources: Vec<R>,
    slots: Arena<usize>,
    names: Vec<(String, Index)>,
}

impl<R> ResourceCache<R> {
    /// The index stored under `name`, if any.
    pub closed spec fn lookup(&self, name: Seq<char>) -> Option<Index> {
        if exists|k: int| 0 <= k < self.names@.len() && (#[trigger] self.names@[k]).0@ == name {
            let k = choose|k: int| 0 <= k < self.names@.len() && (#[trigger] self.names@[k]).0@ == name;
            Some(self.names@[k].1)
        } else {
            None
        }
    }

    /// The resource a handle's index leads to, if it is live.
    pub closed spec fn resolve(&self, i: Index) -> Option<R> {
        if arena_slots(self.slots).contains_key(i) {
            Some(self.resources@[arena_slots(self.slots)[i] as int])
        } else {
            None
        }
    }

    /// Names are unique, each names a live entry, and each live entry leads to its own
    /// stored resource.
    pub closed spec fn wf(&self) -> bool {
        &&& forall|a: int, b: int|
            0 <= a < self.names@.len() && 0 <= b < self.names@.len() && (#[trigger] self.names@[a]).0@
                == (#[trigger] self.names@[b]).0@ ==> a == b
        &&& forall|k: int| 0 <= k < self.names@.len() ==> arena_slots(self.slots).contains_key(
            (#[trigger] self.names@[k]).1,
        )
        &&& forall|i: Index| #[trigger] arena_slots(self.slots).contains_key(i) ==> arena_slots(
            self.slots,
        )[i] < self.resources@.len()
        &&& forall|i: Index, j: Index|
            #[trigger] arena_slots(self.slots).contains_key(i) && #[trigger] arena_slots(self.slots).contains_key(j)
                && arena_slots(self.slots)[i] == arena_slots(self.slots)[j] ==> i == j
    }

    /// An empty cache.
    pub fn new() -> (r: Self)
        ensures
            r.wf(),
            forall|n: Seq<char>| r.lookup(n) is None,
            forall|i: Index| r.resolve(i) is None,
    {
        ResourceCache { resources: Vec::new(), slots: arena_new(), names: Vec::new() }
    }

    fn find(&self, name: &String) -> (r: Option<usize>)
        requires
            self.wf(),
        ensures
            r matches Some(k) ==> k < self.names@.len() && self.names@[k as int].0@ == name@,
            r is None ==> forall|k: int| 0 <= k < self.names@.len() ==> (#[trigger] self.names@[k]).0@ != name@,
    {
        let mut k: usize = 0;
        while k < self.names.len()
            invariant
                k <= self.names@.len(),
                forall|j: int| 0 <= j < k ==> (#[trigger] self.names@[j]).0@ != name@,
            decreases self.names@.len() - k,
        {
            if self.names[k].0 == *name {
                return Some(k);
            }
            k = k + 1;
        }
        None
    }

    proof fn lemma_lookup_at(&self, k: int)
        requires
            self.wf(),
            0 <= k < self.names@.len(),
        ensures
            self.lookup(self.names@[k].0@) == Some(self.names@[k].1),
    {
        let name = self.names@[k].0@;
        assert(0 <= k < self.names@.len() && (#[trigger] self.names@[k]).0@ == name);
        let c = choose|c: int| 0 <= c < self.names@.len() && (#[trigger] self.names@[c]).0@ == name;
        assert(self.names@[c].0@ == self.names@[k].0@);
    }

    /// The handle of the resource stored under `name`, or `NotFound` with the name.
    pub fn get(&self, name: &String) -> (r: Result<Handle<R>, ResourceError>)
        requires
            self.wf(),
        ensures
            r matches Ok(h) ==> self.lookup(name@) == Some(h.spec_index()),
            r is Err <==> self.lookup(name@) is None,
            r matches Err(e) ==> e matches ResourceError::NotFound(n) && n@ == name@,
    {
        match self.find(name) {
            Some(k) => {
                proof {
                    self.lemma_lookup_at(k as int);
                }
                Ok(Handle { index: self.names[k].1, marker: PhantomData })
            },
            None => Err(ResourceError::NotFound(name.clone())),
        }
    }

    /// The handle of the resource stored under `name`; when there is none, `resource` is
    /// stored under it first. Every other name and every live handle keeps its meaning.
    pub fn insert(&mut self, name: String, resource: R) -> (r: Handle<R>)
        requires
            old(self).wf(),
        ensures
            final(self).wf(),
            final(self).lookup(name@) == Some(r.spec_index()),
            old(self).lookup(name@) matches Some(i) ==> r.spec_index() == i,
            old(self).lookup(name@) is None ==> final(self).resolve(r.spec_index()) == Some(resource),
            old(self).lookup(name@) is None ==> old(self).resolve(r.spec_index()) is None,
            forall|n: Seq<char>| n != name@ ==> #[trigger] final(self).lookup(n) == old(self).lookup(n),
            forall|i: Index| (#[trigger] old(self).resolve(i)) is Some ==> final(self).resolve(i)
                == old(self).resolve(i),
    {
        match self.find(&name) {
            Some(k) => {
                proof {
                    self.lemma_lookup_at(k as int);
                }
                Handle { index: self.names[k].1, marker: PhantomData }
            },
            None => {
                let ghost old_self = *self;
                let position = self.resources.len();
                self.resources.push(resource);
                let index = arena_insert(&mut self.slots, position);
                let ghost name_view = name@;
                self.names.push((name, index));
                proof {
                    assert(self.names@[self.names@.len() - 1] == (self.names@.last()));
                    assert forall|k: int| 0 <= k < old_self.names@.len() implies self.names@[k] == old_self.names@[k] by {}
                    self.lemma_lookup_at(self.names@.len() - 1);
                    assert forall|n: Seq<char>| n != name_view implies #[trigger] self.lookup(n) == old_self.lookup(n) by {
                        if old_self.lookup(n) is Some {
                            let k = choose|k: int| 0 <= k < old_self.names@.len() && (#[trigger] old_self.names@[k]).0@ == n;
                            old_self.lemma_lookup_at(k);
                            self.lemma_lookup_at(k);
                        } else {
                            if self.lookup(n) is Some {
                                let k = choose|k: int| 0 <= k < self.names@.len() && (#[trigger] self.names@[k]).0@ == n;
                                assert(k < old_self.names@.len());
                                assert(old_self.names@[k].0@ == n);
                            }
                        }
                    }
                    assert forall|i: Index| (#[trigger] old_self.resolve(i)) is Some implies self.resolve(i) == old_self.resolve(i) by {
                        assert(arena_slots(old_self.slots).contains_key(i));
                        assert(arena_slots(old_self.slots)[i] < old_self.resources@.len());
                        assert(self.resources@[arena_slots(old_self.slots)[i] as int] == old_self.resources@[arena_slots(old_self.slots)[i] as int]);
                    }
                }
                Handle { index, marker: PhantomData }
            },
        }
    }

    /// Puts `resource` in place of the one a live handle leads to and returns the old one;
    /// `InvalidHandle` when the handle is not live, with nothing changed. Names and handles
    /// keep their meaning.
    pub fn replace(&mut self, handle: Handle<R>, resource: R) -> (r: Result<R, ResourceError>)
        requires
            old(self).wf(),
        ensures
            final(self).wf(),
            r matches Ok(v) ==> old(self).resolve(handle.spec_index()) == Some(v),
            r is Ok ==> final(self).resolve(handle.spec_index()) == Some(resource),
            r is Err <==> old(self).resolve(handle.spec_index()) is None,
            r matches Err(e) ==> e matches ResourceError::InvalidHandle,
            forall|n: Seq<char>| #[trigger] final(self).lookup(n) == old(self).lookup(n),
            forall|i: Index| i != handle.spec_index() ==> #[trigger] final(self).resolve(i) == old(self).resolve(i),
    {
        match arena_get(&self.slots, handle.index) {
            Some(position) => {
                let ghost old_self = *self;
                let mut resource = resource;
                std::mem::swap(&mut self.resources[position], &mut resource);
                proof {
                    assert(self.names@ == old_self.names@);
                    assert(self.slots == old_self.slots);
                    assert forall|n: Seq<char>| #[trigger] self.lookup(n) == old_self.lookup(n) by {}
                    assert forall|i: Index| i != handle.spec_index() implies #[trigger] self.resolve(i) == old_self.resolve(i) by {
                        if arena_slots(self.slots).contains_key(i) {
                            assert(arena_slots(self.slots)[i] != position);
                        }
                    }
                }
                Ok(resource)
            },
            None => Err(ResourceError::InvalidHandle),
        }
    }

    /// The resource a handle leads to, or `InvalidHandle` when it is not live.
    pub fn raw(&self, handle: Handle<R>) -> (r: Result<&R, ResourceError>)
        requires
            self.wf(),
        ensures
            r matches Ok(v) ==> self.resolve(handle.spec_index()) == Some(*v),
            r is Err <==> self.resolve(handle.spec_index()) is None,
            r matches Err(e) ==> e matches ResourceError::InvalidHandle,
    {
        match arena_get(&self.slots, handle.index) {
            Some(position) => Ok(&self.resources[position]),
            None => Err(ResourceError::InvalidHandle),
        }
    }
}

} // verus!
