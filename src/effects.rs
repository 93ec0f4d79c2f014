use std::cell::RefCell;
use std::marker::PhantomData;
use std::rc::Rc;
use vstd::prelude::*;

use crate::context::Context;
use crate::shared::try_apply;

verus! {

/// A deferred action. A handler describes a side effect by pushing one onto
/// the context; the effect runner consumes it after the forward phase.
pub trait Effect {
    fn action(self: Box<Self>);
}

/// The effect runner: in the backward phase it takes every effect pushed so
/// far out of the context and runs each once, in the order they were pushed.
pub struct HandleEffects<E> {
    marker: PhantomData<E>,
}

impl<E> HandleEffects<E> {
    pub fn new() -> (r: HandleEffects<E>) {
        HandleEffects { marker: PhantomData }
    }

    /// The work of the runner's `after` hook. The context is left with no
    /// effects and with its queue, stack and coeffects as they were.
    pub fn run_effects<X, F: ?Sized + Effect>(&self, ctx: &mut Context<X, F>)
        ensures
            final(ctx).effects@.len() == 0,
            final(ctx).queue@ == old(ctx).queue@,
            final(ctx).stack@ == old(ctx).stack@,
            final(ctx).coeffects == old(ctx).coeffects,
    {
        let effects = ctx.take_effects();
        for effect in effects {
            effect.action();
        }
    }
}

/// The effect that applies a mutation to a shared state.
#[verifier::reject_recursive_types(S)]
pub struct MutateState<S, F> {
    state_ref: Option<Rc<RefCell<S>>>,
    mutate: F,
}

impl<S, F> MutateState<S, F> {
    /// The state that the mutation applies to.
    pub closed spec fn target(&self) -> Option<Rc<RefCell<S>>> {
        self.state_ref
    }

    /// The mutation.
    pub closed spec fn mutation(&self) -> F {
        self.mutate
    }

    pub fn new(state_ref: Rc<RefCell<S>>, mutate: F) -> (r: MutateState<S, F>)
        ensures
            r.target() == Some(state_ref),
            r.mutation() == mutate,
    {
        MutateState { state_ref: Some(state_ref), mutate }
    }
}

impl<S: 'static, F: 'static + FnOnce(&mut S)> Effect for MutateState<S, F> {
    /// Applies the mutation to the state, unless the state is borrowed at
    /// that moment.
    fn action(self: Box<Self>) {
        let this = *self;
        let MutateState { state_ref, mutate } = this;
        match state_ref {
            Some(cell) => {
                let _applied = try_apply(&*cell, mutate);
            },
            None => {},
        }
    }
}

} // verus!
