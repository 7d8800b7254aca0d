use vstd::prelude::*;

verus! {

/// A repeated task run on the calling thread: each `tick` hands the item to
/// the handler once, until the task is interrupted.
pub struct NonThreadedTask<T, F: Fn(&mut T)> {
    interrupted: bool,
    item: T,
    handler: F,
}

impl<T, F: Fn(&mut T)> NonThreadedTask<T, F> {
    pub closed spec fn spec_interrupted(self) -> bool {
        self.interrupted
    }

    pub closed spec fn item(self) -> T {
        self.item
    }

    pub closed spec fn handler(self) -> F {
        self.handler
    }

    /// A running task over `item`.
    pub fn new(item: T, handler: F) -> (r: Self)
        ensures
            !r.spec_interrupted(),
            r.item() == item,
            r.handler() == handler,
    {
        NonThreadedTask { interrupted: false, item, handler }
    }

    /// Whether the task was interrupted.
    pub fn interrupted(&self) -> (r: bool)
        ensures
            r == self.spec_interrupted(),
    {
        self.interrupted
    }

    /// Stops the task: later ticks do nothing.
    pub fn interrupt(&mut self)
        ensures
            final(self).spec_interrupted(),
            final(self).item() == old(self).item(),
            final(self).handler() == old(self).handler(),
    {
        self.interrupted = true;
    }

    /// Runs the handler on the item once, unless the task was interrupted.
    pub fn tick(&mut self)
        requires
            !old(self).spec_interrupted() ==> forall|x: &mut T|
                *x == old(self).item() ==> #[trigger] old(self).handler().requires((x,)),
        ensures
            tick_keeps(*old(self), *final(self)),
            final(self).spec_interrupted() == old(self).spec_interrupted(),
            final(self).handler() == old(self).handler(),
            old(self).spec_interrupted() ==> final(self).item() == old(self).item(),
            !old(self).spec_interrupted() ==> exists|x: &mut T|
                *x == old(self).item() && *final(x) == final(self).item()
                    && #[trigger] old(self).handler().ensures((x,), ()),
    {
        if !self.interrupted {
            let item = &mut self.item;
            assert(old(self).handler().requires((item,)));
            (self.handler)(item);
        }
    }

    /// Ends the task and gives the item back.
    pub fn join(self) -> (r: T)
        ensures
            r == self.item(),
    {
        self.item
    }
}

/// What one `tick` keeps: whether the task was interrupted, its handler,
/// and, once it is interrupted, its item.
pub open spec fn tick_keeps<T, F: Fn(&mut T)>(before: NonThreadedTask<T, F>, after: NonThreadedTask<T, F>) -> bool {
    &&& after.spec_interrupted() == before.spec_interrupted()
    &&& after.handler() == before.handler()
    &&& before.spec_interrupted() ==> after.item() == before.item()
}

/// `step` applied `m` times to `x`.
pub open spec fn iterate<T>(step: spec_fn(T) -> T, x: T, m: nat) -> T
    decreases m,
{
    if m == 0 {
        x
    } else {
        step(iterate(step, x, (m - 1) as nat))
    }
}

/// A running task ticked `m` times holds its item with the handler applied
/// `m` times, and is still running.
proof fn lemma_running_ticks<T, F: Fn(&mut T)>(run: Seq<NonThreadedTask<T, F>>, step: spec_fn(T) -> T)
    requires
        run.len() > 0,
        !run[0].spec_interrupted(),
        forall|x: &mut T| #[trigger] run[0].handler().ensures((x,), ()) ==> *final(x) == step(*x),
        forall|k: int| 0 <= k < run.len() - 1 ==> tick_keeps(#[trigger] run[k], run[k + 1]) && (!run[k].spec_interrupted()
            ==> exists|x: &mut T| *x == run[k].item() && *final(x) == run[k + 1].item() && #[trigger] run[k].handler().ensures((x,), ())),
    ensures
        run.last().item() == iterate(step, run[0].item(), (run.len() - 1) as nat),
        !run.last().spec_interrupted(),
        run.last().handler() == run[0].handler(),
    decreases run.len(),
{
    if run.len() > 1 {
        let ps = run.drop_last();
        assert forall|k: int| 0 <= k < ps.len() - 1 implies tick_keeps(#[trigger] ps[k], ps[k + 1]) && (!ps[k].spec_interrupted()
            ==> exists|x: &mut T| *x == ps[k].item() && *final(x) == ps[k + 1].item() && #[trigger] ps[k].handler().ensures((x,), ())) by {
            assert(ps[k] == run[k] && ps[k + 1] == run[k + 1]);
        }
        lemma_running_ticks(ps, step);
        let n = run.len() - 1;
        assert(tick_keeps(run[n - 1], run[n]));
        assert(ps[n - 1] == run[n - 1]);
        assert(ps[0] == run[0]);
        let x = choose|x: &mut T|
            *x == run[n - 1].item() && *final(x) == run[n].item() && #[trigger] run[n - 1].handler().ensures((x,), ());
        assert(run[0].handler().ensures((x,), ()));
    }
}

/// A task made with item `x` and ticked `m` times (`run`), then
/// interrupted and ticked any number of times more (`stopped`), holds `x`
/// with the handler applied exactly `m` times: what `join` gives back.
pub proof fn law_join_after_ticks<T, F: Fn(&mut T)>(
    run: Seq<NonThreadedTask<T, F>>,
    stopped: Seq<NonThreadedTask<T, F>>,
    step: spec_fn(T) -> T,
)
    requires
        run.len() > 0,
        !run[0].spec_interrupted(),
        forall|x: &mut T| #[trigger] run[0].handler().ensures((x,), ()) ==> *final(x) == step(*x),
        forall|k: int| 0 <= k < run.len() - 1 ==> tick_keeps(#[trigger] run[k], run[k + 1]) && (!run[k].spec_interrupted()
            ==> exists|x: &mut T| *x == run[k].item() && *final(x) == run[k + 1].item() && #[trigger] run[k].handler().ensures((x,), ())),
        stopped.len() > 0,
        stopped[0].spec_interrupted(),
        stopped[0].item() == run.last().item(),
        forall|k: int| 0 <= k < stopped.len() - 1 ==> tick_keeps(#[trigger] stopped[k], stopped[k + 1]),
    ensures
        stopped.last().item() == iterate(step, run[0].item(), (run.len() - 1) as nat),
{
    lemma_running_ticks(run, step);
    law_ticks_after_interrupt_keep_item(stopped);
    assert(stopped[stopped.len() - 1].item() == stopped[0].item());
}

/// Once a task is interrupted, any number of ticks leave its item as it
/// was, so `join` gives back the item as the interrupt found it.
pub proof fn law_ticks_after_interrupt_keep_item<T, F: Fn(&mut T)>(states: Seq<NonThreadedTask<T, F>>)
    requires
        states.len() > 0,
        states[0].spec_interrupted(),
        forall|k: int| 0 <= k < states.len() - 1 ==> tick_keeps(#[trigger] states[k], states[k + 1]),
    ensures
        forall|k: int|
            0 <= k < states.len() ==> (#[trigger] states[k]).item() == states[0].item()
                && states[k].spec_interrupted(),
    decreases states.len(),
{
    if states.len() > 1 {
        let ps = states.drop_last();
        assert forall|k: int| 0 <= k < ps.len() - 1 implies tick_keeps(#[trigger] ps[k], ps[k + 1]) by {
            assert(tick_keeps(states[k], states[k + 1]));
        }
        law_ticks_after_interrupt_keep_item(ps);
        let n = states.len() - 1;
        assert(tick_keeps(states[n - 1], states[n]));
        assert(ps[n - 1] == states[n - 1]);
        assert(ps[0] == states[0]);
        assert forall|k: int| 0 <= k < states.len() implies (#[trigger] states[k]).item() == states[0].item()
            && states[k].spec_interrupted() by {
            if k < n {
                assert(ps[k] == states[k]);
            }
        }
    }
}

} // verus!
