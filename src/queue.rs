use std::collections::VecDeque;
use std::rc::Rc;
use vstd::prelude::*;

verus! {

/// The interceptors that are still to run in the current phase of a
/// dispatch. The front is the next one to run.
pub struct InterceptorQueue<X> {
    items: VecDeque<Rc<X>>,
}

impl<X> View for InterceptorQueue<X> {
    type V = Seq<Rc<X>>;

    closed spec fn view(&self) -> Seq<Rc<X>> {
        self.items@
    }
}

impl<X> InterceptorQueue<X> {
    /// An empty queue.
    pub fn new() -> (r: Self)
        ensures
            r@ == Seq::<Rc<X>>::empty(),
    {
        InterceptorQueue { items: VecDeque::new() }
    }

    /// A queue that holds `items` in the same order, the first one in front.
    pub fn from_vec(items: Vec<Rc<X>>) -> (r: Self)
        ensures
            r@ == items@,
    {
        let mut q = VecDeque::new();
        let mut i: usize = 0;
        while i < items.len()
            invariant
                i <= items@.len(),
                q@ == items@.subrange(0, i as int),
            decreases items@.len() - i,
        {
            q.push_back(items[i].clone());
            i = i + 1;
        }
        proof {
            assert(items@.subrange(0, items@.len() as int) =~= items@);
        }
        InterceptorQueue { items: q }
    }

    pub fn len(&self) -> (r: usize)
        ensures
            r == self@.len(),
    {
        self.items.len()
    }

    pub fn is_empty(&self) -> (r: bool)
        ensures
            r == (self@.len() == 0),
    {
        self.items.len() == 0
    }

    /// Appends an interceptor at the back.
    pub fn push_back(&mut self, value: Rc<X>)
        ensures
            final(self)@ == old(self)@.push(value),
    {
        self.items.push_back(value);
    }

    /// Inserts an interceptor in front, so that it runs next.
    pub fn push_front(&mut self, value: Rc<X>)
        ensures
            final(self)@ == seq![value] + old(self)@,
    {
        self.items.push_front(value);
        proof {
            assert(self@ =~= seq![value] + old(self)@);
        }
    }

    /// Takes the front interceptor out, if there is one.
    pub fn pop_front(&mut self) -> (r: Option<Rc<X>>)
        ensures
            old(self)@.len() == 0 ==> r is None && final(self)@ == old(self)@,
            old(self)@.len() > 0 ==> r == Some(old(self)@[0]) && final(self)@
                == old(self)@.drop_first(),
    {
        self.items.pop_front()
    }

    /// Drops every interceptor that is still queued.
    pub fn clear(&mut self)
        ensures
            final(self)@ == Seq::<Rc<X>>::empty(),
    {
        self.items.clear();
    }

    /// Appends each interceptor of `items` at the back, in order, each behind
    /// a handle of its own.
    pub fn extend(&mut self, items: Vec<X>)
        ensures
            final(self)@.len() == old(self)@.len() + items@.len(),
            final(self)@.subrange(0, old(self)@.len() as int) == old(self)@,
            forall|j: int|
                0 <= j < items@.len() ==> *#[trigger] final(self)@[old(self)@.len() + j]
                    == items@[j],
    {
        let ghost start = self@;
        let ghost all = items@;
        let n: usize = items.len();
        let mut src = items;
        let mut rev: Vec<X> = Vec::new();
        while src.len() > 0
            invariant
                src@.len() + rev@.len() == n,
                n == all.len(),
                forall|j: int| 0 <= j < src@.len() ==> src@[j] == all[j],
                forall|j: int| 0 <= j < rev@.len() ==> rev@[j] == all[n - 1 - j],
            decreases src@.len(),
        {
            let item = src.pop().unwrap();
            rev.push(item);
        }
        let mut k: usize = 0;
        while k < n
            invariant
                n == all.len(),
                rev@.len() == n - k,
                forall|j: int| 0 <= j < rev@.len() ==> rev@[j] == all[n - 1 - j],
                self@.len() == start.len() + k,
                self@.subrange(0, start.len() as int) == start,
                forall|j: int| 0 <= j < k ==> *#[trigger] self@[start.len() + j] == all[j],
            decreases n - k,
        {
            let item = rev.pop().unwrap();
            self.items.push_back(Rc::new(item));
            k = k + 1;
        }
    }
}

} // verus!
