use std::rc::Rc;
use vstd::prelude::*;

use crate::context::Context;
use crate::effects::Effect;

verus! {

/// The phase of a dispatch: forwards through the `before` hooks, then
/// backwards through the `after` hooks.
#[derive(PartialEq, Eq, Structural, Clone, Copy, Debug)]
pub enum Direction {
    Forwards,
    Backwards,
}

impl Direction {
    pub fn is_forwards(&self) -> (r: bool)
        ensures
            r == (*self is Forwards),
    {
        match *self {
            Direction::Forwards => true,
            Direction::Backwards => false,
        }
    }

    pub fn is_backwards(&self) -> (r: bool)
        ensures
            r == (*self is Backwards),
    {
        match *self {
            Direction::Forwards => false,
            Direction::Backwards => true,
        }
    }
}

/// What the driver of a dispatch does next, once the context is at hand.
pub enum Step<T> {
    /// Run the `before` hook of this interceptor, which is now on top of the
    /// stack.
    Before(T),
    /// Run the `after` hook of this interceptor.
    After(T),
    /// The dispatch is complete.
    Done,
}

/// The state that a dispatch keeps between two hooks.
pub struct Traversal {
    pub direction: Direction,
}

/// What one move of the traversal gives, from its direction, queue and stack:
/// the new direction, queue and stack and the step to take.
///
/// Forwards, the front of the queue moves to the top of the stack and its
/// `before` runs. When the queue runs dry, the direction turns, the stack
/// becomes the queue with its top in front, and the move goes on backwards.
/// Backwards, the front of the queue leaves and its `after` runs; when the
/// queue is empty the dispatch is done.
pub open spec fn advance_spec<T>(d: Direction, q: Seq<T>, s: Seq<T>) -> (Direction, Seq<T>, Seq<
    T,
>, Step<T>) {
    match d {
        Direction::Forwards => {
            if q.len() > 0 {
                (Direction::Forwards, q.drop_first(), s.push(q[0]), Step::Before(q[0]))
            } else {
                let r = s.reverse();
                if r.len() > 0 {
                    (Direction::Backwards, r.drop_first(), Seq::empty(), Step::After(r[0]))
                } else {
                    (Direction::Backwards, r, Seq::empty(), Step::Done)
                }
            }
        },
        Direction::Backwards => {
            if q.len() > 0 {
                (Direction::Backwards, q.drop_first(), s, Step::After(q[0]))
            } else {
                (Direction::Backwards, q, s, Step::Done)
            }
        },
    }
}

impl Traversal {
    /// The state at the start of a dispatch.
    pub fn new() -> (r: Traversal)
        ensures
            r.direction == Direction::Forwards,
    {
        Traversal { direction: Direction::Forwards }
    }

    /// Called each time the previous hook has handed the context back: moves
    /// the queue and the stack as `advance_spec` says and returns the step to
    /// take. Coeffects and effects are left as they are.
    pub fn advance<X, F: ?Sized + Effect>(&mut self, ctx: &mut Context<X, F>) -> (r: Step<Rc<X>>)
        ensures
            (final(self).direction, final(ctx).queue@, final(ctx).stack@, r) == advance_spec(
                old(self).direction,
                old(ctx).queue@,
                old(ctx).stack@,
            ),
            final(ctx).coeffects == old(ctx).coeffects,
            final(ctx).effects == old(ctx).effects,
    {
        if self.direction.is_forwards() {
            match ctx.queue.pop_front() {
                Some(next) => {
                    ctx.stack.push(Rc::clone(&next));
                    return Step::Before(next);
                },
                None => {
                    self.direction = Direction::Backwards;
                    let ghost s = ctx.stack@;
                    let mut stack: Vec<Rc<X>> = Vec::new();
                    std::mem::swap(&mut ctx.stack, &mut stack);
                    let mut rev: Vec<Rc<X>> = Vec::new();
                    while stack.len() > 0
                        invariant
                            stack@.len() + rev@.len() == s.len(),
                            forall|j: int| 0 <= j < stack@.len() ==> stack@[j] == s[j],
                            forall|j: int| 0 <= j < rev@.len() ==> rev@[j] == s[s.len() - 1 - j],
                        decreases stack@.len(),
                    {
                        let top = stack.pop().unwrap();
                        rev.push(top);
                    }
                    proof {
                        assert(rev@ =~= s.reverse());
                    }
                    ctx.queue = crate::queue::InterceptorQueue::from_vec(rev);
                },
            }
        }
        match ctx.queue.pop_front() {
            Some(next) => Step::After(next),
            None => Step::Done,
        }
    }
}

/// A measure that every move of the traversal makes smaller.
pub open spec fn moves_left<T>(d: Direction, q: Seq<T>, s: Seq<T>) -> nat {
    match d {
        Direction::Forwards => 2 * q.len() + s.len() + 1,
        Direction::Backwards => q.len(),
    }
}

/// The hooks that a dispatch runs, in order, from direction `d`, queue `q`
/// and stack `s`, when no hook changes the queue or the stack.
pub open spec fn trace<T>(d: Direction, q: Seq<T>, s: Seq<T>) -> Seq<Step<T>>
    decreases moves_left(d, q, s),
{
    match d {
        Direction::Forwards => {
            if q.len() > 0 {
                seq![Step::Before(q[0])] + trace(Direction::Forwards, q.drop_first(), s.push(q[0]))
            } else {
                trace(Direction::Backwards, s.reverse(), Seq::empty())
            }
        },
        Direction::Backwards => {
            if q.len() > 0 {
                seq![Step::After(q[0])] + trace(Direction::Backwards, q.drop_first(), s)
            } else {
                Seq::empty()
            }
        },
    }
}

/// The `before` hooks of `q`, in order.
pub open spec fn befores<T>(q: Seq<T>) -> Seq<Step<T>> {
    q.map_values(|i: T| Step::Before(i))
}

/// The `after` hooks of `q`, in order.
pub open spec fn afters<T>(q: Seq<T>) -> Seq<Step<T>> {
    q.map_values(|i: T| Step::After(i))
}

/// The trace is what repeated moves of the driver give: the first step that
/// `advance_spec` takes, then the trace from where it leads; nothing once it
/// is done.
pub proof fn lemma_trace_follows_advance<T>(d: Direction, q: Seq<T>, s: Seq<T>)
    ensures
        ({
            let (d2, q2, s2, step) = advance_spec(d, q, s);
            if step is Done {
                trace(d, q, s) == Seq::<Step<T>>::empty()
            } else {
                trace(d, q, s) == seq![step] + trace(d2, q2, s2)
            }
        }),
{
    if d is Forwards && q.len() == 0 {
        assert(trace(d, q, s) == trace(Direction::Backwards, s.reverse(), Seq::<T>::empty()));
    }
}

/// Backwards, every interceptor left in the queue has its `after` hook run,
/// in queue order.
pub proof fn lemma_backward_trace<T>(q: Seq<T>, s: Seq<T>)
    ensures
        trace(Direction::Backwards, q, s) == afters(q),
    decreases q.len(),
{
    if q.len() > 0 {
        lemma_backward_trace(q.drop_first(), s);
        assert(afters(q) =~= seq![Step::After(q[0])] + afters(q.drop_first()));
    } else {
        assert(afters(q) =~= Seq::<Step<T>>::empty());
    }
}

/// Forwards, the queue has its `before` hooks run in order, then the stack
/// and the queue together have their `after` hooks run, latest first.
pub proof fn lemma_forward_trace<T>(q: Seq<T>, s: Seq<T>)
    ensures
        trace(Direction::Forwards, q, s) == befores(q) + afters((s + q).reverse()),
    decreases q.len(),
{
    if q.len() > 0 {
        lemma_forward_trace(q.drop_first(), s.push(q[0]));
        assert(s.push(q[0]) + q.drop_first() =~= s + q);
        assert(befores(q) =~= seq![Step::Before(q[0])] + befores(q.drop_first()));
        assert(trace(Direction::Forwards, q, s) =~= befores(q) + afters((s + q).reverse()));
    } else {
        lemma_backward_trace(s.reverse(), Seq::<T>::empty());
        assert(s + q =~= s);
        assert(befores(q) =~= Seq::<Step<T>>::empty());
        assert(trace(Direction::Forwards, q, s) =~= befores(q) + afters((s + q).reverse()));
    }
}

/// Symmetry: over a chain of interceptors that leave the queue and the stack
/// alone, a dispatch runs every `before` hook once, in chain order, before
/// any `after` hook, and then every `after` hook once, in reverse order.
pub proof fn lemma_symmetry<T>(chain: Seq<T>)
    ensures
        trace(Direction::Forwards, chain, Seq::empty()) == befores(chain) + afters(
            chain.reverse(),
        ),
{
    lemma_forward_trace(chain, Seq::empty());
    assert(Seq::<T>::empty() + chain =~= chain);
}

/// When a `before` hook appends `added` to what is left of the queue, each
/// interceptor of `added` has its `before` hook run, after those of `rest`,
/// and later its `after` hook, before those of `rest` and of the stack.
pub proof fn lemma_appended_run_both_hooks<T>(stack: Seq<T>, rest: Seq<T>, added: Seq<T>)
    ensures
        ({
            let t = trace(Direction::Forwards, rest + added, stack);
            let n = rest.len() + added.len();
            &&& t.len() == 2 * n + stack.len()
            &&& t.subrange(0, n as int) == befores(rest + added)
            &&& forall|j: int|
                0 <= j < added.len() ==> #[trigger] t[rest.len() + j] == Step::Before(added[j])
                    && t[n + added.len() - 1 - j] == Step::After(added[j])
        }),
{
    lemma_forward_trace(rest + added, stack);
    let t = trace(Direction::Forwards, rest + added, stack);
    let n = rest.len() + added.len();
    assert(t.subrange(0, n as int) =~= befores(rest + added));
    assert forall|j: int| 0 <= j < added.len() implies #[trigger] t[rest.len() + j]
        == Step::Before(added[j]) && t[n + added.len() - 1 - j] == Step::After(added[j]) by {
        assert((rest + added)[rest.len() + j] == added[j]);
        let all = stack + (rest + added);
        assert(all[stack.len() + rest.len() + j] == added[j]);
        assert(all.reverse()[added.len() - 1 - j] == added[j]);
    }
}

/// When a `before` hook clears the queue, no further `before` hook runs, and
/// every interceptor already on the stack has its `after` hook run, latest
/// first.
pub proof fn lemma_cleared_queue_unwinds_stack<T>(stack: Seq<T>)
    ensures
        trace(Direction::Forwards, Seq::empty(), stack) == afters(stack.reverse()),
        forall|k: int|
            0 <= k < trace(Direction::Forwards, Seq::<T>::empty(), stack).len()
                ==> #[trigger] trace(Direction::Forwards, Seq::<T>::empty(), stack)[k] is After,
{
    lemma_forward_trace(Seq::<T>::empty(), stack);
    assert(stack + Seq::<T>::empty() =~= stack);
    assert(befores(Seq::<T>::empty()) =~= Seq::<Step<T>>::empty());
    assert(Seq::<Step<T>>::empty() + afters(stack.reverse()) =~= afters(stack.reverse()));
}

/// The event bridge, appended last to a chain, has its `before` hook (the
/// event's handler) run exactly once: at the end of the forward phase, and at
/// no other place of the trace where a `before` hook runs.
pub proof fn lemma_bridge_runs_once<T>(chain: Seq<T>, bridge: T)
    ensures
        ({
            let t = trace(Direction::Forwards, chain.push(bridge), Seq::empty());
            &&& t[chain.len() as int] == Step::Before(bridge)
            &&& forall|k: int| 0 <= k < t.len() ==> (#[trigger] t[k] is Before <==> k <= chain.len())
        }),
{
    let q = chain.push(bridge);
    lemma_symmetry(q);
    let t = trace(Direction::Forwards, q, Seq::empty());
    assert(t[chain.len() as int] == befores(q)[chain.len() as int]);
    assert forall|k: int| 0 <= k < t.len() implies (#[trigger] t[k] is Before <==> k
        <= chain.len()) by {
        if k < q.len() {
            assert(t[k] == befores(q)[k]);
        } else {
            assert(t[k] == afters(q.reverse())[k - q.len()]);
        }
    }
}

} // verus!
