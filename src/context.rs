use std::rc::Rc;
use vstd::prelude::*;

use crate::bag::TypedBag;
use crate::effects::Effect;
use crate::queue::InterceptorQueue;

verus! {

/// The value threaded through one dispatch. `X` is the interceptor type; each
/// interceptor is held behind a shared handle, since one chain serves every
/// dispatch of its event. `F` is the effect type, most often `dyn Effect`.
pub struct Context<X, F: ?Sized> {
    /// Values injected for the handlers, one for each type.
    pub coeffects: TypedBag,
    /// Effects pushed so far, in the order they were pushed.
    pub effects: Vec<Box<F>>,
    /// Interceptors still to run in the current phase; the front runs next.
    pub queue: InterceptorQueue<X>,
    /// Interceptors whose `before` has run; the top is the latest.
    pub stack: Vec<Rc<X>>,
}

impl<X, F: ?Sized + Effect> Context<X, F> {
    /// A context whose queue holds `interceptors` in order, with no
    /// coeffects, no effects and an empty stack.
    pub fn new(interceptors: Vec<Rc<X>>) -> (r: Context<X, F>)
        ensures
            r.queue@ == interceptors@,
            r.stack@ == Seq::<Rc<X>>::empty(),
            r.effects@.len() == 0,
            r.coeffects.len_spec() == 0,
    {
        Context {
            coeffects: TypedBag::new(),
            effects: Vec::new(),
            queue: InterceptorQueue::from_vec(interceptors),
            stack: Vec::new(),
        }
    }

    /// Appends an effect after those already pushed.
    pub fn push_effect(&mut self, effect: Box<F>)
        ensures
            final(self).effects@ == old(self).effects@.push(effect),
            final(self).queue@ == old(self).queue@,
            final(self).stack@ == old(self).stack@,
            final(self).coeffects == old(self).coeffects,
    {
        self.effects.push(effect);
    }

    /// Takes every pushed effect out, in the order they were pushed, and
    /// leaves the context with none.
    pub fn take_effects(&mut self) -> (r: Vec<Box<F>>)
        ensures
            r@ == old(self).effects@,
            final(self).effects@.len() == 0,
            final(self).queue@ == old(self).queue@,
            final(self).stack@ == old(self).stack@,
            final(self).coeffects == old(self).coeffects,
    {
        let mut taken: Vec<Box<F>> = Vec::new();
        std::mem::swap(&mut self.effects, &mut taken);
        taken
    }
}

} // verus!
