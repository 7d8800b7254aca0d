use vstd::prelude::*;

verus! {

/// Tracks whether the wrapped value changed since the change flag was last
/// invalidated.
///
/// Reading the value never touches the flag; every mutable access through
/// `DerefMut` sets it.
#[derive(Debug, Clone)]
pub struct Observable<T> {
    changed: bool,
    inner: T,
}

impl<T> Observable<T> {
    /// The change flag.
    pub closed spec fn spec_changed(self) -> bool {
        self.changed
    }

    /// The wrapped value.
    pub closed spec fn value(self) -> T {
        self.inner
    }

    /// The observable after the change flag is cleared, together with the
    /// flag it had before.
    pub open spec fn spec_invalidate(self) -> (Self, bool) {
        (self.with_flag(false), self.spec_changed())
    }

    /// The observable after the change flag is set.
    pub open spec fn spec_mark(self) -> Self {
        self.with_flag(true)
    }

    /// The same value under the given change flag.
    pub closed spec fn with_flag(self, changed: bool) -> Self {
        Observable { changed, inner: self.inner }
    }

    /// What `from` and `into` give for `value`: an observable holding it,
    /// counted as changed.
    pub closed spec fn spec_from(value: T) -> Self {
        Observable { changed: true, inner: value }
    }

    /// Facts about `spec_from`.
    pub proof fn lemma_spec_from(value: T)
        ensures
            Self::spec_from(value).spec_changed(),
            Self::spec_from(value).value() == value,
    {
    }

    /// Facts about `with_flag`.
    pub proof fn lemma_with_flag(self, changed: bool)
        ensures
            self.with_flag(changed).spec_changed() == changed,
            self.with_flag(changed).value() == self.value(),
    {
    }

    /// Creates an observable whose value counts as changed.
    pub fn new(data: T) -> (r: Self)
        ensures
            r.spec_changed(),
            r.value() == data,
    {
        Self { changed: true, inner: data }
    }

    /// Creates an observable whose value counts as unchanged.
    pub fn new_unchanged(data: T) -> (r: Self)
        ensures
            !r.spec_changed(),
            r.value() == data,
    {
        Self { changed: false, inner: data }
    }

    /// Takes the value out.
    pub fn into_inner(this: Self) -> (r: T)
        ensures
            r == this.value(),
    {
        this.inner
    }

    /// Whether the value changed since the flag was last invalidated.
    pub fn changed(this: &Self) -> (r: bool)
        ensures
            r == this.spec_changed(),
    {
        this.changed
    }

    /// Clears the change flag; returns whether it was set.
    pub fn invalidate(this: &mut Self) -> (r: bool)
        ensures
            (*final(this), r) == old(this).spec_invalidate(),
    {
        if this.changed {
            this.changed = false;
            true
        } else {
            false
        }
    }

    /// Sets the change flag.
    pub fn mark(this: &mut Self)
        ensures
            *final(this) == old(this).spec_mark(),
    {
        if !this.changed {
            this.changed = true;
        }
    }
}

impl<T> core::ops::Deref for Observable<T> {
    type Target = T;

    fn deref(&self) -> (r: &T)
        ensures
            *r == self.value(),
    {
        &self.inner
    }
}

impl<T> core::ops::DerefMut for Observable<T> {
    fn deref_mut(&mut self) -> (r: &mut T)
        ensures
            *r == old(self).value(),
            final(self).spec_changed(),
            final(self).value() == *final(r),
    {
        Self::mark(self);
        &mut self.inner
    }
}

impl<T: Default> Default for Observable<T> {
    /// The default value, counting as unchanged.
    fn default() -> (r: Self)
        ensures
            !r.spec_changed(),
    {
        Observable { changed: false, inner: T::default() }
    }
}

impl<T> core::convert::From<T> for Observable<T> {
    fn from(value: T) -> (r: Self)
        ensures
            r.spec_changed(),
            r.value() == value,
    {
        Observable::new(value)
    }
}

impl<T> vstd::std_specs::convert::FromSpecImpl<T> for Observable<T> {
    open spec fn obeys_from_spec() -> bool {
        true
    }

    open spec fn from_spec(v: T) -> Self {
        Observable::<T>::spec_from(v)
    }
}

/// What changes the flag of an observable: `mark` (and every mutable
/// access, which marks), or `invalidate`.
pub enum FlagOp {
    Mark,
    Invalidate,
}

/// The observable after `ops`, in order.
pub open spec fn after_flag_ops<T>(o: Observable<T>, ops: Seq<FlagOp>) -> Observable<T>
    decreases ops.len(),
{
    if ops.len() == 0 {
        o
    } else {
        let prev = after_flag_ops(o, ops.drop_last());
        match ops.last() {
            FlagOp::Mark => prev.spec_mark(),
            FlagOp::Invalidate => prev.spec_invalidate().0,
        }
    }
}

/// After any run of flag changes, the value counts as changed exactly when
/// the last of them was a `mark` (or a mutable access); with none, the flag
/// is the one it was made with. The value never changes along the way.
pub proof fn law_changed_follows_last_op<T>(o: Observable<T>, ops: Seq<FlagOp>)
    ensures
        ops.len() > 0 ==> after_flag_ops(o, ops).spec_changed() == (ops.last() is Mark),
        ops.len() == 0 ==> after_flag_ops(o, ops).spec_changed() == o.spec_changed(),
        after_flag_ops(o, ops).value() == o.value(),
    decreases ops.len(),
{
    if ops.len() > 0 {
        let prev = after_flag_ops(o, ops.drop_last());
        law_changed_follows_last_op(o, ops.drop_last());
        prev.lemma_with_flag(true);
        prev.lemma_with_flag(false);
    }
}

/// Clearing the flag right after setting it reports a change, and leaves the
/// value as it was.
pub proof fn law_invalidate_after_mark<T>(o: Observable<T>)
    ensures
        o.spec_mark().spec_invalidate().1,
        o.spec_mark().spec_invalidate().0.value() == o.value(),
        !o.spec_mark().spec_invalidate().0.spec_changed(),
{
    o.lemma_with_flag(true);
    o.spec_mark().lemma_with_flag(false);
}

/// Clearing the flag twice reports no change the second time.
pub proof fn law_invalidate_idempotent<T>(o: Observable<T>)
    ensures
        !o.spec_invalidate().0.spec_invalidate().1,
        o.spec_invalidate().0.spec_invalidate().0 == o.spec_invalidate().0,
{
    o.lemma_with_flag(false);
    o.spec_invalidate().0.lemma_with_flag(false);
}

/// Neither setting nor clearing the flag changes the value.
pub proof fn law_flag_keeps_value<T>(o: Observable<T>)
    ensures
        o.spec_mark().value() == o.value(),
        o.spec_invalidate().0.value() == o.value(),
{
    o.lemma_with_flag(true);
    o.lemma_with_flag(false);
}

} // verus!
