//! The objects to render: a plain list owned by the caller, with a flag that records changes.
use vstd::prelude::*;

verus! {

/// A list of objects and whether it changed since the flag was last cleared.
pub struct Scene<T> {
    objects: Vec<T>,
    modified: bool,
}

impl<T> Scene<T> {
    pub closed spec fn spec_objects(&self) -> Seq<T> {
        self.objects@
    }

    pub closed spec fn spec_modified(&self) -> bool {
        self.modified
    }

    /// An empty, unmodified scene.
    pub fn new() -> (r: Self)
        ensures
            r.spec_objects().len() == 0,
            !r.spec_modified(),
    {
        Scene { objects: Vec::new(), modified: false }
    }

    /// Appends an object and marks the scene modified.
    pub fn add(&mut self, object: T)
        ensures
            final(self).spec_objects() == old(self).spec_objects().push(object),
            final(self).spec_modified(),
    {
        self.objects.push(object);
        self.modified = true;
    }

    pub fn objects(&self) -> (r: &[T])
        ensures
            r@ == self.spec_objects(),
    {
        self.objects.as_slice()
    }

    pub fn objects_mut(&mut self) -> (r: &mut [T])
        ensures
            r@ == old(self).spec_objects(),
            final(self).spec_objects() == final(r)@,
            final(self).spec_modified() == old(self).spec_modified(),
    {
        self.objects.as_mut_slice()
    }

    pub fn is_modified(&self) -> (r: bool)
        ensures
            r == self.spec_modified(),
    {
        self.modified
    }

    pub fn clear_modified(&mut self)
        ensures
            final(self).spec_objects() == old(self).spec_objects(),
            !final(self).spec_modified(),
    {
        self.modified = false;
    }
}

} // verus!
