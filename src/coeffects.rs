use std::marker::PhantomData;
use std::rc::Rc;
use std::sync::Arc;
use vstd::prelude::*;

use crate::context::Context;
use crate::effects::Effect;

verus! {

/// A value that can be injected into a context's coeffects.
pub trait Coeffect: 'static {

}

impl<C: Coeffect + ?Sized> Coeffect for Arc<C> {

}

impl<C: Coeffect + ?Sized> Coeffect for Rc<C> {

}

impl<C: Coeffect + ?Sized> Coeffect for Box<C> {

}

/// Something that produces a coeffect for each dispatch.
pub trait NewCoeffect {
    type Instance: Coeffect;

    fn new_coeffect(&self) -> Self::Instance;
}

/// The interceptor that, on `before`, inserts a new coeffect made by its seed.
pub struct InjectCoeffect<C, E> {
    seed: C,
    marker: PhantomData<E>,
}

impl<C, E> InjectCoeffect<C, E> {
    /// What makes the coeffect.
    pub closed spec fn seed_spec(&self) -> C {
        self.seed
    }

    pub fn new(new_coeffect: C) -> (r: InjectCoeffect<C, E>)
        ensures
            r.seed_spec() == new_coeffect,
    {
        InjectCoeffect { seed: new_coeffect, marker: PhantomData }
    }

    /// The work of the `before` hook: one coeffect of the seed's instance type
    /// is present afterwards, in place of any earlier one of that type. The
    /// queue, the stack and the effects are left as they were.
    pub fn inject<X, F: ?Sized + Effect>(&self, ctx: &mut Context<X, F>)
        where C: NewCoeffect,
        ensures
            final(ctx).coeffects.len_spec() > 0,
            final(ctx).coeffects.len_spec() == old(ctx).coeffects.len_spec()
                || final(ctx).coeffects.len_spec() == old(ctx).coeffects.len_spec() + 1,
            final(ctx).queue@ == old(ctx).queue@,
            final(ctx).stack@ == old(ctx).stack@,
            final(ctx).effects@ == old(ctx).effects@,
    {
        let value = self.seed.new_coeffect();
        let _replaced = ctx.coeffects.insert(value);
    }
}

} // verus!
