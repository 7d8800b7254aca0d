use vstd::prelude::*;
use core::marker::PhantomData;
use std::collections::HashSet;

verus! {

broadcast use vstd::std_specs::hash::group_hash_axioms;

/// Typed handle to a component stored in a frame container.
#[derive(Debug)]
pub struct FrameComponentKey<T>(usize, PhantomData<T>);

impl<T> FrameComponentKey<T> {
    /// The component id the key stands for.
    pub closed spec fn spec_id(self) -> usize {
        self.0
    }

    /// A key for the component with the given id.
    pub fn from_id(id: usize) -> (r: Self)
        ensures
            r.spec_id() == id,
    {
        FrameComponentKey(id, PhantomData)
    }

    /// The component id.
    pub fn id(&self) -> (r: usize)
        ensures
            r == self.spec_id(),
    {
        self.0
    }
}

impl<T> Clone for FrameComponentKey<T> {
    fn clone(&self) -> (r: Self)
        ensures
            r.spec_id() == self.spec_id(),
    {
        FrameComponentKey(self.0, PhantomData)
    }
}

impl<T> Copy for FrameComponentKey<T> {
}

/// The ids of the components of a frame that changed and are still to be
/// brought up to date.
#[derive(Debug)]
pub struct DirtySet {
    ids: HashSet<usize>,
}

impl DirtySet {
    /// The ids held.
    pub closed spec fn ids(self) -> Set<usize> {
        self.ids@
    }

    /// A set holding no id.
    pub fn new() -> (r: Self)
        ensures
            r.ids() == Set::<usize>::empty(),
    {
        DirtySet { ids: HashSet::new() }
    }

    /// Whether `id` is held.
    pub fn contains(&self, id: usize) -> (r: bool)
        ensures
            r == self.ids().contains(id),
    {
        self.ids.contains(&id)
    }

    /// Whether no id is held.
    pub fn is_empty(&self) -> (r: bool)
        ensures
            r == (self.ids() == Set::<usize>::empty()),
    {
        let r = self.ids.is_empty();
        proof {
            if r {
                assert(self.ids@ =~= Set::<usize>::empty());
            }
        }
        r
    }

    /// Adds `id`.
    pub fn insert(&mut self, id: usize)
        ensures
            final(self).ids() == old(self).ids().insert(id),
    {
        self.ids.insert(id);
    }

    /// Takes every id out; the set is left empty.
    pub fn take(&mut self) -> (r: HashSet<usize>)
        ensures
            r@ == old(self).ids(),
            final(self).ids() == Set::<usize>::empty(),
    {
        let mut taken: HashSet<usize> = HashSet::new();
        core::mem::swap(&mut taken, &mut self.ids);
        taken
    }
}

/// What `update` does with a changed component.
#[derive(Debug, Clone, Copy, PartialEq, Eq, Structural)]
pub enum DirtyCheck {
    /// It is gone already: forget its id.
    Forget,
    /// It expired: remove it, and forget its id.
    Remove,
    /// Bring it up to date; its id stays only while it keeps changing.
    Update,
}

/// Decides what happens to a changed component, from whether it is still
/// in the frame and whether it expired.
pub fn dirty_check(present: bool, expired: bool) -> (r: DirtyCheck)
    ensures
        !present ==> r == DirtyCheck::Forget,
        present && expired ==> r == DirtyCheck::Remove,
        present && !expired ==> r == DirtyCheck::Update,
{
    if !present {
        DirtyCheck::Forget
    } else if expired {
        DirtyCheck::Remove
    } else {
        DirtyCheck::Update
    }
}

} // verus!
