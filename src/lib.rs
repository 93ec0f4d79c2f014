//! An event-processing core: an event runs through a chain of interceptors,
//! first forwards through their `before` hooks, then backwards through their
//! `after` hooks, while a context carries coeffects, effects and the
//! remaining queue.

mod bag;
mod coeffects;
mod context;
mod db;
mod effects;
mod events;
mod pipeline;
mod queue;
mod shared;

pub use bag::{bag_len, TypedBag};
pub use coeffects::{Coeffect, InjectCoeffect, NewCoeffect};
pub use context::Context;
pub use db::Db;
pub use effects::{Effect, HandleEffects, MutateState};
pub use events::{EventDispatcher, EventInterceptor};
pub use pipeline::{
    advance_spec, afters, befores, lemma_appended_run_both_hooks, lemma_backward_trace,
    lemma_bridge_runs_once, lemma_cleared_queue_unwinds_stack, lemma_forward_trace, lemma_symmetry,
    lemma_trace_follows_advance, moves_left, trace, Direction, Step, Traversal,
};
pub use queue::InterceptorQueue;
