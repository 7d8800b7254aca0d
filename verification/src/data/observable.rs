use vstd::prelude::*;

verus! {

/// Tracks whether the wrapped value is still valid, that is, unchanged since
/// the last `unmark`.
#[derive(Debug, Clone)]
pub struct Observable<T> {
    inner: T,
    valid: bool,
}

impl<T> Observable<T> {
    /// The validity flag.
    pub closed spec fn spec_valid(self) -> bool {
        self.valid
    }

    /// The wrapped value.
    pub closed spec fn value(self) -> T {
        self.inner
    }

    /// The observable after `unmark`, together with the result `unmark`
    /// gives: whether the value was invalid before.
    pub open spec fn spec_unmark(self) -> (Self, bool) {
        (self.with_valid(true), !self.spec_valid())
    }

    /// The observable after `mark`.
    pub open spec fn spec_mark(self) -> Self {
        self.with_valid(false)
    }

    /// The observable after `set(value)`.
    pub open spec fn spec_set(self, value: T) -> Self {
        Self::spec_new(value)
    }

    /// An invalid observable holding `value`.
    pub closed spec fn spec_new(value: T) -> Self {
        Observable { inner: value, valid: false }
    }

    /// The same value under the given validity flag.
    pub closed spec fn with_valid(self, valid: bool) -> Self {
        Observable { inner: self.inner, valid }
    }

    /// Facts about `with_valid` and `spec_new`.
    pub proof fn lemma_model(self, valid: bool, value: T)
        ensures
            self.with_valid(valid).spec_valid() == valid,
            self.with_valid(valid).value() == self.value(),
            !Self::spec_new(value).spec_valid(),
            Self::spec_new(value).value() == value,
    {
    }

    /// Creates an observable whose value is not yet valid.
    pub fn new(data: T) -> (r: Self)
        ensures
            !r.spec_valid(),
            r.value() == data,
    {
        Self { inner: data, valid: false }
    }

    /// Creates an observable whose value is already valid.
    pub fn new_valid(data: T) -> (r: Self)
        ensures
            r.spec_valid(),
            r.value() == data,
    {
        Self { inner: data, valid: true }
    }

    /// Whether the value is unchanged since the last `unmark`.
    pub fn valid(&self) -> (r: bool)
        ensures
            r == self.spec_valid(),
    {
        self.valid
    }

    /// Replaces the value and marks it changed.
    pub fn set(&mut self, value: T)
        ensures
            *final(self) == old(self).spec_set(value),
    {
        self.inner = value;
        self.mark();
    }

    /// Takes the value out.
    pub fn inner(self) -> (r: T)
        ensures
            r == self.value(),
    {
        self.inner
    }

    /// Makes the value valid again; returns whether it was changed before.
    pub fn unmark(&mut self) -> (r: bool)
        ensures
            (*final(self), r) == old(self).spec_unmark(),
    {
        if !self.valid {
            self.valid = true;
            true
        } else {
            false
        }
    }

    /// Marks the value as changed.
    pub fn mark(&mut self)
        ensures
            *final(self) == old(self).spec_mark(),
    {
        if self.valid {
            self.valid = false;
        }
    }
}

impl<T: Default> Default for Observable<T> {
    /// The default value, not yet valid.
    fn default() -> (r: Self)
        ensures
            !r.spec_valid(),
    {
        Observable { inner: T::default(), valid: false }
    }
}

impl<T> core::convert::AsRef<T> for Observable<T> {
    fn as_ref(&self) -> (r: &T)
        ensures
            *r == self.value(),
    {
        &self.inner
    }
}

impl<T> core::convert::AsMut<T> for Observable<T> {
    fn as_mut(&mut self) -> (r: &mut T)
        ensures
            *r == old(self).value(),
            !final(self).spec_valid(),
            final(self).value() == *final(r),
    {
        self.mark();
        &mut self.inner
    }
}

/// What changes the validity of an observable: `set` (a `Write`), `mark` (and every
/// mutable access, which marks), or `unmark`.
pub enum ValidOp<T> {
    Write(T),
    Mark,
    Unmark,
}

/// The observable after `ops`, in order.
pub open spec fn after_valid_ops<T>(o: Observable<T>, ops: Seq<ValidOp<T>>) -> Observable<T>
    decreases ops.len(),
{
    if ops.len() == 0 {
        o
    } else {
        let prev = after_valid_ops(o, ops.drop_last());
        match ops.last() {
            ValidOp::Write(v) => prev.spec_set(v),
            ValidOp::Mark => prev.spec_mark(),
            ValidOp::Unmark => prev.spec_unmark().0,
        }
    }
}

/// After any run of these calls, the value is valid exactly when the last
/// of them was an `unmark`; with none, it is as it was made.
pub proof fn law_valid_follows_last_op<T>(o: Observable<T>, ops: Seq<ValidOp<T>>)
    ensures
        ops.len() > 0 ==> after_valid_ops(o, ops).spec_valid() == (ops.last() is Unmark),
        ops.len() == 0 ==> after_valid_ops(o, ops).spec_valid() == o.spec_valid(),
    decreases ops.len(),
{
    if ops.len() > 0 {
        let prev = after_valid_ops(o, ops.drop_last());
        law_valid_follows_last_op(o, ops.drop_last());
        match ops.last() {
            ValidOp::Write(v) => prev.lemma_model(true, v),
            ValidOp::Mark => prev.lemma_model(false, prev.value()),
            ValidOp::Unmark => prev.lemma_model(true, prev.value()),
        }
    }
}

/// The value of the last `Write` among `ops`, or `initial` where there is
/// none.
pub open spec fn last_written<T>(initial: T, ops: Seq<ValidOp<T>>) -> T
    decreases ops.len(),
{
    if ops.len() == 0 {
        initial
    } else {
        match ops.last() {
            ValidOp::Write(v) => v,
            _ => last_written(initial, ops.drop_last()),
        }
    }
}

/// After any run of these calls, the value is the one the last `set` wrote,
/// or the value the observable was made with where nothing was set: `mark`
/// and `unmark` never touch it.
pub proof fn law_value_is_last_write<T>(o: Observable<T>, ops: Seq<ValidOp<T>>)
    ensures
        after_valid_ops(o, ops).value() == last_written(o.value(), ops),
    decreases ops.len(),
{
    if ops.len() > 0 {
        let prev = after_valid_ops(o, ops.drop_last());
        law_value_is_last_write(o, ops.drop_last());
        match ops.last() {
            ValidOp::Write(v) => prev.lemma_model(true, v),
            ValidOp::Mark => prev.lemma_model(false, prev.value()),
            ValidOp::Unmark => prev.lemma_model(true, prev.value()),
        }
    }
}

/// After `set`, the value reads back as the one written and counts as
/// changed, whatever the observable held before.
pub proof fn law_set_then_read<T>(o: Observable<T>, v: T)
    ensures
        o.spec_set(v).value() == v,
        !o.spec_set(v).spec_valid(),
        o.spec_set(v).spec_unmark().1,
{
    o.lemma_model(true, v);
    Observable::<T>::spec_new(v).lemma_model(true, v);
}

/// `unmark` right after `mark` reports a change; a second `unmark` reports
/// none. Neither touches the value.
pub proof fn law_unmark_after_mark<T>(o: Observable<T>)
    ensures
        o.spec_mark().spec_unmark().1,
        !o.spec_mark().spec_unmark().0.spec_unmark().1,
        o.spec_mark().spec_unmark().0.value() == o.value(),
        o.spec_mark().spec_unmark().0.spec_valid(),
{
    o.lemma_model(false, o.value());
    o.spec_mark().lemma_model(true, o.value());
    o.spec_mark().spec_unmark().0.lemma_model(true, o.value());
}

} // verus!
