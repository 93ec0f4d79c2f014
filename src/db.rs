use std::cell::{Ref, RefCell};
use std::rc::Rc;
use vstd::prelude::*;

use crate::coeffects::{Coeffect, NewCoeffect};
use crate::effects::MutateState;
use crate::shared::{read_ref, try_read};

verus! {

/// Application state shared by every dispatch on one thread. Handlers read it
/// through `borrow`; they change it only through the effect that `mutate`
/// builds, which runs in the backward phase.
#[verifier::reject_recursive_types(S)]
pub struct Db<S> {
    cell: Rc<RefCell<S>>,
}

impl<S> Db<S> {
    /// The shared cell that holds the state.
    pub closed spec fn cell_spec(&self) -> Rc<RefCell<S>> {
        self.cell
    }

    /// A new cell holding `state`.
    pub fn new(state: S) -> (r: Db<S>) {
        Db { cell: Rc::new(RefCell::new(state)) }
    }

    /// A shared borrow of the state, or `None` while a mutation is being
    /// applied to it.
    pub fn borrow(&self) -> (r: Option<Ref<'_, S>>) {
        try_read(&*self.cell)
    }

    /// The effect that applies `f` to this state when it runs.
    pub fn mutate<F>(&self, f: F) -> (r: MutateState<S, F>)
        ensures
            r.target() == Some(self.cell_spec()),
            r.mutation() == f,
    {
        MutateState::new(Rc::clone(&self.cell), f)
    }

    /// A copy of the state, or `None` while a mutation is being applied to
    /// it.
    pub fn update(&self) -> (r: Option<S>) where S: Clone {
        match try_read(&*self.cell) {
            Some(guard) => {
                let value = read_ref(&guard).clone();
                Some(value)
            },
            None => None,
        }
    }
}

impl<S> Clone for Db<S> {
    /// Another handle to the same state.
    fn clone(&self) -> (r: Db<S>)
        ensures
            r.cell_spec() == self.cell_spec(),
    {
        Db { cell: Rc::clone(&self.cell) }
    }
}

impl<S: 'static> Coeffect for Db<S> {

}

impl<S: 'static> NewCoeffect for Db<S> {
    type Instance = Db<S>;

    fn new_coeffect(&self) -> Db<S> {
        self.clone()
    }
}

} // verus!
