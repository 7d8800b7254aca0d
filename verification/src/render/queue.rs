use vstd::prelude::*;
use std::collections::VecDeque;

verus! {

/// Drawables waiting to be prepared, each with the number of drawables that
/// were appended before it. Opaque ones go to the back, the others to the
/// front, so that preparing from the back handles opaque drawables nearest
/// first and the others farthest first.
pub struct DrawQueue<S> {
    drawables: VecDeque<(usize, S)>,
}

/// The queue after appending `appends` in order, each an opaque flag and a
/// drawable, to an empty queue.
pub open spec fn arranged<S>(appends: Seq<(bool, S)>) -> Seq<(usize, S)>
    decreases appends.len(),
{
    if appends.len() == 0 {
        Seq::empty()
    } else {
        let prev = arranged(appends.drop_last());
        let entry = ((appends.len() - 1) as usize, appends.last().1);
        if appends.last().0 {
            prev.push(entry)
        } else {
            seq![entry] + prev
        }
    }
}

/// The opaque drawables of `appends` with their positions, last appended
/// first.
pub open spec fn opaque_latest_first<S>(appends: Seq<(bool, S)>) -> Seq<(usize, S)>
    decreases appends.len(),
{
    if appends.len() == 0 {
        Seq::empty()
    } else {
        let prev = opaque_latest_first(appends.drop_last());
        if appends.last().0 {
            seq![((appends.len() - 1) as usize, appends.last().1)] + prev
        } else {
            prev
        }
    }
}

/// The other drawables of `appends` with their positions, in the order
/// they were appended.
pub open spec fn blended_in_order<S>(appends: Seq<(bool, S)>) -> Seq<(usize, S)>
    decreases appends.len(),
{
    if appends.len() == 0 {
        Seq::empty()
    } else {
        let prev = blended_in_order(appends.drop_last());
        if appends.last().0 {
            prev
        } else {
            prev.push(((appends.len() - 1) as usize, appends.last().1))
        }
    }
}

impl<S> DrawQueue<S> {
    /// The queued drawables, front first.
    pub closed spec fn entries(self) -> Seq<(usize, S)> {
        self.drawables@
    }

    /// An empty queue.
    pub fn new() -> (r: Self)
        ensures
            r.entries() == Seq::<(usize, S)>::empty(),
    {
        DrawQueue { drawables: VecDeque::new() }
    }

    /// An empty queue with room for `capacity` drawables.
    pub fn with_capacity(capacity: usize) -> (r: Self)
        ensures
            r.entries() == Seq::<(usize, S)>::empty(),
    {
        DrawQueue { drawables: VecDeque::with_capacity(capacity) }
    }

    /// Number of queued drawables.
    pub fn len(&self) -> (r: usize)
        ensures
            r == self.entries().len(),
    {
        self.drawables.len()
    }

    /// Queues a drawable, numbered by how many are queued already: at the
    /// back when it is opaque, at the front otherwise.
    pub fn append(&mut self, opaque: bool, state: S)
        requires
            old(self).entries().len() < usize::MAX,
        ensures
            final(self).entries() == (if opaque {
                old(self).entries().push((old(self).entries().len() as usize, state))
            } else {
                seq![(old(self).entries().len() as usize, state)] + old(self).entries()
            }),
    {
        let index = self.drawables.len();
        if opaque {
            self.drawables.push_back((index, state));
        } else {
            self.drawables.push_front((index, state));
        }
    }

    /// Empties the queue, back first: the order drawables are prepared in.
    pub fn drain_back_first(&mut self) -> (r: Vec<(usize, S)>)
        ensures
            r@ == old(self).entries().reverse(),
            final(self).entries() == Seq::<(usize, S)>::empty(),
    {
        let mut out: Vec<(usize, S)> = Vec::with_capacity(self.drawables.len());
        let ghost all = self.drawables@;
        while self.drawables.len() > 0
            invariant
                all.reverse() == out@ + self.drawables@.reverse(),
            decreases self.drawables@.len(),
        {
            let ghost before = self.drawables@;
            match self.drawables.pop_back() {
                Some(item) => {
                    proof {
                        assert(before == self.drawables@.push(item));
                        assert(before.reverse() =~= seq![item] + self.drawables@.reverse());
                    }
                    out.push(item);
                    proof {
                        assert(out@ + self.drawables@.reverse() =~= (out@.drop_last() + seq![item])
                            + self.drawables@.reverse());
                    }
                },
                None => {},
            }
        }
        proof {
            assert(self.drawables@.reverse() =~= Seq::<(usize, S)>::empty());
            assert(out@ =~= out@ + self.drawables@.reverse());
        }
        out
    }
}

/// Components prepared for one frame: opaque ones drawn with depth writes,
/// the others blended over them.
pub struct ComponentQueue<C> {
    opaque: Vec<C>,
    transparent: Vec<C>,
}

impl<C> ComponentQueue<C> {
    /// The opaque components, in the order they were pushed.
    pub closed spec fn opaque(self) -> Seq<C> {
        self.opaque@
    }

    /// The blended components, in the order they were pushed.
    pub closed spec fn transparent(self) -> Seq<C> {
        self.transparent@
    }

    /// No component queued.
    pub fn new() -> (r: Self)
        ensures
            r.opaque() == Seq::<C>::empty(),
            r.transparent() == Seq::<C>::empty(),
    {
        ComponentQueue { opaque: Vec::new(), transparent: Vec::new() }
    }

    /// Queues an opaque component.
    pub fn push_opaque(&mut self, component: C)
        ensures
            final(self).opaque() == old(self).opaque().push(component),
            final(self).transparent() == old(self).transparent(),
    {
        self.opaque.push(component);
    }

    /// Queues a blended component.
    pub fn push_transparent(&mut self, component: C)
        ensures
            final(self).opaque() == old(self).opaque(),
            final(self).transparent() == old(self).transparent().push(component),
    {
        self.transparent.push(component);
    }

    /// Whether a render pass is needed at all.
    pub fn is_empty(&self) -> (r: bool)
        ensures
            r == (self.opaque().len() == 0 && self.transparent().len() == 0),
    {
        self.opaque.len() == 0 && self.transparent.len() == 0
    }

    /// Empties the queue in drawing order: the opaque components last pushed
    /// first, then the blended ones in the order they were pushed.
    pub fn take_render_order(&mut self) -> (r: (Vec<C>, Vec<C>))
        ensures
            r.0@ == old(self).opaque().reverse(),
            r.1@ == old(self).transparent(),
            final(self).opaque() == Seq::<C>::empty(),
            final(self).transparent() == Seq::<C>::empty(),
    {
        let mut opaque: Vec<C> = Vec::new();
        let ghost all = self.opaque@;
        while self.opaque.len() > 0
            invariant
                all.reverse() == opaque@ + self.opaque@.reverse(),
                all == old(self).opaque(),
                self.transparent@ == old(self).transparent(),
            decreases self.opaque@.len(),
        {
            let ghost before = self.opaque@;
            match self.opaque.pop() {
                Some(c) => {
                    proof {
                        assert(before == self.opaque@.push(c));
                        lemma_reverse_push(self.opaque@, c);
                    }
                    opaque.push(c);
                    proof {
                        assert(opaque@ + self.opaque@.reverse() =~= (opaque@.drop_last() + seq![c])
                            + self.opaque@.reverse());
                    }
                },
                None => {},
            }
        }
        proof {
            assert(self.opaque@.reverse() =~= Seq::<C>::empty());
            assert(opaque@ =~= opaque@ + self.opaque@.reverse());
        }
        let mut transparent: Vec<C> = Vec::new();
        core::mem::swap(&mut transparent, &mut self.transparent);
        (opaque, transparent)
    }
}

proof fn lemma_reverse_push<A>(s: Seq<A>, a: A)
    ensures
        s.push(a).reverse() == seq![a] + s.reverse(),
{
    assert(s.push(a).reverse() =~= seq![a] + s.reverse());
}

proof fn lemma_reverse_prepend<A>(s: Seq<A>, a: A)
    ensures
        (seq![a] + s).reverse() == s.reverse().push(a),
{
    assert((seq![a] + s).reverse() =~= s.reverse().push(a));
}

/// Appending the drawables one by one to an empty queue gives `arranged`.
pub proof fn law_appends_arrange<S>(appends: Seq<(bool, S)>, before: Seq<(usize, S)>, after: Seq<(usize, S)>, opaque: bool, state: S)
    requires
        before == arranged(appends),
        after == (if opaque {
            before.push((before.len() as usize, state))
        } else {
            seq![(before.len() as usize, state)] + before
        }),
    ensures
        after == arranged(appends.push((opaque, state))),
{
    lemma_arranged_len(appends);
    assert(appends.push((opaque, state)).drop_last() =~= appends);
}

/// The queue holds one entry per drawable appended.
pub proof fn lemma_arranged_len<S>(appends: Seq<(bool, S)>)
    ensures
        arranged(appends).len() == appends.len(),
    decreases appends.len(),
{
    if appends.len() > 0 {
        lemma_arranged_len(appends.drop_last());
    }
}

/// Draining the queue back first prepares the opaque drawables last
/// appended first, then the others in the order they were appended.
pub proof fn law_prepare_order<S>(appends: Seq<(bool, S)>)
    ensures
        arranged(appends).reverse() == opaque_latest_first(appends) + blended_in_order(appends),
    decreases appends.len(),
{
    if appends.len() > 0 {
        let prefix = appends.drop_last();
        law_prepare_order(prefix);
        let entry = ((appends.len() - 1) as usize, appends.last().1);
        if appends.last().0 {
            lemma_reverse_push(arranged(prefix), entry);
            assert(seq![entry] + (opaque_latest_first(prefix) + blended_in_order(prefix))
                =~= (seq![entry] + opaque_latest_first(prefix)) + blended_in_order(prefix));
        } else {
            lemma_reverse_prepend(arranged(prefix), entry);
            assert((opaque_latest_first(prefix) + blended_in_order(prefix)).push(entry)
                =~= opaque_latest_first(prefix) + blended_in_order(prefix).push(entry));
        }
    }
}

} // verus!
