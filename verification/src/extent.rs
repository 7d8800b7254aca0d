use vstd::prelude::*;

verus! {

/// Which rectangle an extent is measured against.
#[derive(Debug, Clone, Copy, PartialEq, Eq, Hash)]
pub enum ExtentStandard {
    Root,
    Parent,
    Current,
}

impl Default for ExtentStandard {
    /// Extents are measured against the current rectangle unless told
    /// otherwise.
    fn default() -> (r: Self)
        ensures
            r == ExtentStandard::Current,
    {
        ExtentStandard::Current
    }
}

impl ExtentStandard {
    /// Of the root, parent and current measures, the one this standard
    /// measures against.
    pub fn select<T>(&self, root: T, parent: T, current: T) -> (r: T)
        ensures
            *self == ExtentStandard::Root ==> r == root,
            *self == ExtentStandard::Parent ==> r == parent,
            *self == ExtentStandard::Current ==> r == current,
    {
        match self {
            ExtentStandard::Root => root,
            ExtentStandard::Parent => parent,
            ExtentStandard::Current => current,
        }
    }
}

} // verus!
