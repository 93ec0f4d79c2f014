use std::any::TypeId;
use std::rc::Rc;
use vstd::prelude::*;

use crate::context::Context;
use crate::effects::Effect;

verus! {

#[verifier::external_type_specification]
#[verifier::external_body]
pub struct ExTypeId(TypeId);

/// Relies on `PartialEq` for `TypeId`: two identities are equal exactly
/// when they are the same value.
pub assume_specification[ <TypeId as PartialEq>::eq ](a: &TypeId, b: &TypeId) -> (r: bool)
    ensures
        r == (*a == *b),
;

/// Relies on `TypeId::of`: the runtime identity of the type `T`.
#[verifier::external_body]
fn type_key<T: ?Sized + 'static>() -> (r: TypeId) {
    TypeId::of::<T>()
}

/// The single-use slot that holds a dispatched event until its handler runs.
pub struct EventInterceptor<T> {
    event: Option<T>,
}

impl<T> EventInterceptor<T> {
    /// The event still held, if its handler has not run yet.
    pub closed spec fn slot(&self) -> Option<T> {
        self.event
    }

    pub fn new(event: T) -> (r: EventInterceptor<T>)
        ensures
            r.slot() == Some(event),
    {
        EventInterceptor { event: Some(event) }
    }

    /// Hands the event out for its handler. It comes out once: the slot is
    /// empty afterwards, and a later call gets `None`.
    pub fn take_event(&mut self) -> (r: Option<T>)
        ensures
            r == old(self).slot(),
            final(self).slot() is None,
    {
        self.event.take()
    }

    /// Whether the event has already been handed out.
    pub fn is_spent(&self) -> (r: bool)
        ensures
            r == (self.slot() is None),
    {
        self.event.is_none()
    }
}

/// The registry: for each event type, the chain of interceptors that serves
/// every dispatch of that type.
pub struct EventDispatcher<X> {
    entries: Vec<(TypeId, Vec<Rc<X>>)>,
}

impl<X> EventDispatcher<X> {
    /// The chains, by event type.
    pub closed spec fn chains(&self) -> Map<TypeId, Seq<Rc<X>>> {
        Map::new(
            |k: TypeId| exists|i: int| 0 <= i < self.entries@.len() && self.entries@[i].0 == k,
            |k: TypeId|
                {
                    let i = choose|i: int| 0 <= i < self.entries@.len() && self.entries@[i].0 == k;
                    self.entries@[i].1@
                },
        )
    }

    /// At most one entry for each event type.
    pub closed spec fn wf(&self) -> bool {
        forall|i: int, j: int|
            0 <= i < self.entries@.len() && 0 <= j < self.entries@.len() && i != j
                ==> self.entries@[i].0 != self.entries@[j].0
    }

    proof fn lemma_entry_is_chain(&self, i: int)
        requires
            self.wf(),
            0 <= i < self.entries@.len(),
        ensures
            self.chains().contains_key(self.entries@[i].0),
            self.chains()[self.entries@[i].0] == self.entries@[i].1@,
    {
        let k = self.entries@[i].0;
        assert(self.chains().contains_key(k));
        let c = choose|c: int| 0 <= c < self.entries@.len() && self.entries@[c].0 == k;
        assert(c == i);
    }

    /// An empty registry.
    pub fn new() -> (r: EventDispatcher<X>)
        ensures
            r.wf(),
            r.chains() == Map::<TypeId, Seq<Rc<X>>>::empty(),
    {
        let r = EventDispatcher { entries: Vec::new() };
        assert(r.chains() =~= Map::<TypeId, Seq<Rc<X>>>::empty());
        r
    }

    /// Where the entry for `key` stands, if there is one.
    fn find(&self, key: &TypeId) -> (r: Option<usize>)
        requires
            self.wf(),
        ensures
            r is None ==> !self.chains().contains_key(*key),
            r matches Some(i) ==> i < self.entries@.len() && self.entries@[i as int].0 == *key,
    {
        let mut i: usize = 0;
        while i < self.entries.len()
            invariant
                i <= self.entries@.len(),
                forall|j: int| 0 <= j < i ==> self.entries@[j].0 != *key,
            decreases self.entries@.len() - i,
        {
            if self.entries[i].0 == *key {
                return Some(i);
            }
            i = i + 1;
        }
        None
    }

    /// Stores `interceptors`, each behind a shared handle, as the chain of
    /// the event type `key`, in place of any chain it had.
    pub fn register(&mut self, key: TypeId, interceptors: Vec<X>)
        requires
            old(self).wf(),
        ensures
            final(self).wf(),
            final(self).chains().dom() == old(self).chains().dom().insert(key),
            forall|k: TypeId|
                k != key && #[trigger] old(self).chains().contains_key(k) ==> final(self).chains()[k]
                    == old(self).chains()[k],
            final(self).chains()[key].len() == interceptors@.len(),
            forall|j: int|
                0 <= j < interceptors@.len() ==> *#[trigger] final(self).chains()[key][j]
                    == interceptors@[j],
    {
        let ghost old_self = *self;
        let chain = shared_chain(interceptors);
        let pos = self.find(&key);
        let ghost idx: int;
        match pos {
            Some(i) => {
                self.entries.set(i, (key, chain));
                proof {
                    idx = i as int;
                }
            },
            None => {
                self.entries.push((key, chain));
                proof {
                    idx = self.entries@.len() - 1;
                }
            },
        }
        assert(self.wf());
        proof {
            self.lemma_entry_is_chain(idx);
            assert forall|k: TypeId| k != key && #[trigger] old_self.chains().contains_key(k)
                implies self.chains().contains_key(k) && self.chains()[k] == old_self.chains()[k] by {
                let c = choose|c: int|
                    0 <= c < old_self.entries@.len() && old_self.entries@[c].0 == k;
                old_self.lemma_entry_is_chain(c);
                assert(self.entries@[c] == old_self.entries@[c]);
                self.lemma_entry_is_chain(c);
            }
            assert forall|k: TypeId| #[trigger]
                self.chains().contains_key(k) implies old_self.chains().dom().insert(key).contains(k) by {
                let c = choose|c: int| 0 <= c < self.entries@.len() && self.entries@[c].0 == k;
                if k != key {
                    assert(old_self.entries@[c] == self.entries@[c]);
                }
            }
            assert(self.chains().dom() =~= old_self.chains().dom().insert(key));
        }
    }

    /// Registers `interceptors` as the chain of the event type `Ev`.
    pub fn register_event<Ev: 'static>(&mut self, interceptors: Vec<X>)
        requires
            old(self).wf(),
        ensures
            final(self).wf(),
            exists|key: TypeId|
                {
                    &&& final(self).chains().dom() == old(self).chains().dom().insert(key)
                    &&& final(self).chains()[key].len() == interceptors@.len()
                    &&& forall|j: int|
                        0 <= j < interceptors@.len() ==> *#[trigger] final(self).chains()[key][j]
                            == interceptors@[j]
                },
    {
        let key = type_key::<Ev>();
        self.register(key, interceptors);
    }

    /// The context for one dispatch of an event of type `key`: its queue holds
    /// the registered chain with `bridge` appended. Where no chain is
    /// registered the queue is empty, so that nothing runs.
    pub fn context_for<F: ?Sized + Effect>(&self, key: &TypeId, bridge: Rc<X>) -> (r: Context<
        X,
        F,
    >)
        requires
            self.wf(),
        ensures
            self.chains().contains_key(*key) ==> r.queue@ == self.chains()[*key].push(bridge),
            !self.chains().contains_key(*key) ==> r.queue@ == Seq::<Rc<X>>::empty(),
            r.stack@ == Seq::<Rc<X>>::empty(),
            r.effects@.len() == 0,
            r.coeffects.len_spec() == 0,
    {
        match self.find(key) {
            Some(i) => {
                proof {
                    self.lemma_entry_is_chain(i as int);
                }
                let chain = &self.entries[i].1;
                let mut queue: Vec<Rc<X>> = Vec::new();
                let mut j: usize = 0;
                while j < chain.len()
                    invariant
                        j <= chain@.len(),
                        queue@ == chain@.subrange(0, j as int),
                    decreases chain@.len() - j,
                {
                    queue.push(Rc::clone(&chain[j]));
                    j = j + 1;
                }
                queue.push(bridge);
                proof {
                    assert(chain@.subrange(0, chain@.len() as int) =~= chain@);
                }
                Context::new(queue)
            },
            None => Context::new(Vec::new()),
        }
    }

    /// The context for one dispatch of an event of type `Ev`, as
    /// `context_for` gives it for that type's identity.
    pub fn prepare<Ev: 'static, F: ?Sized + Effect>(&self, bridge: Rc<X>) -> (r: Context<X, F>)
        requires
            self.wf(),
        ensures
            exists|key: TypeId|
                {
                    &&& self.chains().contains_key(key) ==> r.queue@ == self.chains()[key].push(
                        bridge,
                    )
                    &&& !self.chains().contains_key(key) ==> r.queue@ == Seq::<Rc<X>>::empty()
                },
            r.stack@ == Seq::<Rc<X>>::empty(),
            r.effects@.len() == 0,
            r.coeffects.len_spec() == 0,
    {
        let key = type_key::<Ev>();
        self.context_for(&key, bridge)
    }
}

/// Puts each interceptor behind a shared handle, in order.
fn shared_chain<X>(interceptors: Vec<X>) -> (r: Vec<Rc<X>>)
    ensures
        r@.len() == interceptors@.len(),
        forall|j: int| 0 <= j < interceptors@.len() ==> *#[trigger] r@[j] == interceptors@[j],
{
    let ghost all = interceptors@;
    let n: usize = interceptors.len();
    let mut src = interceptors;
    let mut rev: Vec<X> = Vec::new();
    while src.len() > 0
        invariant
            src@.len() + rev@.len() == n,
            n == all.len(),
            forall|j: int| 0 <= j < src@.len() ==> src@[j] == all[j],
            forall|j: int| 0 <= j < rev@.len() ==> rev@[j] == all[n - 1 - j],
        decreases src@.len(),
    {
        let item = src.pop().unwrap();
        rev.push(item);
    }
    let mut out: Vec<Rc<X>> = Vec::new();
    while rev.len() > 0
        invariant
            rev@.len() + out@.len() == n,
            n == all.len(),
            forall|j: int| 0 <= j < rev@.len() ==> rev@[j] == all[n - 1 - j],
            forall|j: int| 0 <= j < out@.len() ==> *#[trigger] out@[j] == all[j],
        decreases rev@.len(),
    {
        let item = rev.pop().unwrap();
        out.push(Rc::new(item));
    }
    out
}

} // verus!
