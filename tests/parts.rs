use std::any::TypeId;
use std::cell::RefCell;
use std::rc::Rc;

use tokio_interceptor::{
    Context, Db, Direction, Effect, EventDispatcher, EventInterceptor, HandleEffects,
    InterceptorQueue, Step, Traversal, TypedBag,
};

type Ctx = Context<u32, dyn Effect>;

#[derive(Debug, PartialEq, Clone)]
struct Counter(u8);

#[derive(Debug, PartialEq)]
struct Label(String);

#[test]
fn bag_insert_replaces_value_of_same_type() {
    let mut bag = TypedBag::new();
    assert!(bag.is_empty());
    assert_eq!(None, bag.insert(Counter(1)));
    assert_eq!(1, bag.len());
    assert_eq!(Some(Counter(1)), bag.insert(Counter(2)));
    assert_eq!(1, bag.len());
    assert_eq!(Some(&Counter(2)), bag.get::<Counter>());
}

#[test]
fn bag_keys_by_type() {
    let mut bag = TypedBag::new();
    bag.insert(Counter(7));
    bag.insert(Label("x".to_string()));
    assert_eq!(2, bag.len());
    assert_eq!(Some(&Label("x".to_string())), bag.get::<Label>());
    assert_eq!(None, bag.get::<u64>());
    assert_eq!(Some(Counter(7)), bag.remove::<Counter>());
    assert_eq!(None, bag.remove::<Counter>());
    assert_eq!(1, bag.len());
    assert_eq!(None, bag.get::<Counter>());
}

#[test]
fn queue_operations_keep_order() {
    let mut q: InterceptorQueue<u32> = InterceptorQueue::from_vec(vec![Rc::new(1), Rc::new(2)]);
    q.push_back(Rc::new(3));
    q.push_front(Rc::new(0));
    q.extend(vec![4, 5]);
    assert_eq!(6, q.len());
    let mut out = vec![];
    while let Some(i) = q.pop_front() {
        out.push(*i);
    }
    assert_eq!(vec![0, 1, 2, 3, 4, 5], out);
    assert!(q.is_empty());
    assert_eq!(None, q.pop_front());
}

#[test]
fn queue_clear_empties_it() {
    let mut q: InterceptorQueue<u32> = InterceptorQueue::new();
    q.extend(vec![1, 2, 3]);
    q.clear();
    assert_eq!(0, q.len());
}

#[test]
fn direction_predicates() {
    assert!(Direction::Forwards.is_forwards());
    assert!(!Direction::Forwards.is_backwards());
    assert!(Direction::Backwards.is_backwards());
    assert!(!Direction::Backwards.is_forwards());
}

fn step_value(s: Step<Rc<u32>>) -> String {
    match s {
        Step::Before(i) => format!("before {}", i),
        Step::After(i) => format!("after {}", i),
        Step::Done => "done".to_string(),
    }
}

#[test]
fn traversal_moves_queue_to_stack_and_back() {
    let mut ctx: Ctx = Context::new(vec![Rc::new(1), Rc::new(2)]);
    let mut t = Traversal::new();
    assert_eq!(Direction::Forwards, t.direction);
    assert_eq!("before 1", step_value(t.advance(&mut ctx)));
    assert_eq!(vec![1], ctx.stack.iter().map(|i| **i).collect::<Vec<_>>());
    assert_eq!("before 2", step_value(t.advance(&mut ctx)));
    assert_eq!(2, ctx.stack.len());
    assert_eq!("after 2", step_value(t.advance(&mut ctx)));
    assert_eq!(Direction::Backwards, t.direction);
    assert!(ctx.stack.is_empty());
    assert_eq!(1, ctx.queue.len());
    assert_eq!("after 1", step_value(t.advance(&mut ctx)));
    assert_eq!("done", step_value(t.advance(&mut ctx)));
    assert_eq!("done", step_value(t.advance(&mut ctx)));
}

#[test]
fn traversal_over_empty_queue_is_done_at_once() {
    let mut ctx: Ctx = Context::new(vec![]);
    let mut t = Traversal::new();
    assert_eq!("done", step_value(t.advance(&mut ctx)));
}

#[test]
fn context_for_appends_bridge_to_registered_chain() {
    let mut reg: EventDispatcher<u32> = EventDispatcher::new();
    reg.register(TypeId::of::<Counter>(), vec![10, 20]);
    let ctx: Ctx = reg.context_for(&TypeId::of::<Counter>(), Rc::new(99));
    let mut q = ctx.queue;
    let mut out = vec![];
    while let Some(i) = q.pop_front() {
        out.push(*i);
    }
    assert_eq!(vec![10, 20, 99], out);

    let other: Ctx = reg.context_for(&TypeId::of::<Label>(), Rc::new(99));
    assert_eq!(0, other.queue.len());
}

#[test]
fn event_slot_hands_the_event_out_once() {
    let mut slot = EventInterceptor::new(Counter(3));
    assert!(!slot.is_spent());
    assert_eq!(Some(Counter(3)), slot.take_event());
    assert!(slot.is_spent());
    assert_eq!(None, slot.take_event());
}

#[test]
fn db_update_copies_the_state() {
    let db = Db::new(Counter(5));
    let copy = db.update().unwrap();
    assert_eq!(Counter(5), copy);
    let other = db.clone();
    let mut ctx: Ctx = Context::new(vec![]);
    ctx.push_effect(Box::new(other.mutate(|c: &mut Counter| c.0 = 6)));
    assert_eq!(Counter(5), *db.borrow().unwrap());
    HandleEffects::<()>::new().run_effects(&mut ctx);
    assert_eq!(Counter(6), *db.borrow().unwrap());
    assert_eq!(Counter(5), copy);
}

#[test]
fn db_cannot_be_read_while_a_mutation_applies() {
    let db = Db::new(Counter(1));
    let inner = db.clone();
    let seen = Rc::new(RefCell::new(None));
    let seen2 = Rc::clone(&seen);
    let mut ctx: Ctx = Context::new(vec![]);
    ctx.push_effect(Box::new(db.mutate(move |c: &mut Counter| {
        c.0 = 2;
        *seen2.borrow_mut() = Some(inner.borrow().is_none());
    })));
    HandleEffects::<()>::new().run_effects(&mut ctx);
    assert_eq!(Some(true), *seen.borrow());
    assert_eq!(Counter(2), *db.borrow().unwrap());
}

#[test]
fn mutation_is_skipped_while_the_state_is_borrowed() {
    let db = Db::new(Counter(1));
    let mut ctx: Ctx = Context::new(vec![]);
    ctx.push_effect(Box::new(db.mutate(|c: &mut Counter| c.0 = 9)));
    {
        let held = db.borrow().unwrap();
        HandleEffects::<()>::new().run_effects(&mut ctx);
        assert_eq!(Counter(1), *held);
    }
    assert_eq!(Counter(1), *db.borrow().unwrap());
    assert_eq!(0, ctx.effects.len());
}

#[test]
fn take_effects_keeps_push_order() {
    struct Tag(u8, Rc<RefCell<Vec<u8>>>);
    impl Effect for Tag {
        fn action(self: Box<Self>) {
            self.1.borrow_mut().push(self.0);
        }
    }
    let log = Rc::new(RefCell::new(vec![]));
    let mut ctx: Ctx = Context::new(vec![]);
    ctx.push_effect(Box::new(Tag(1, Rc::clone(&log))));
    ctx.push_effect(Box::new(Tag(2, Rc::clone(&log))));
    let taken = ctx.take_effects();
    assert_eq!(0, ctx.effects.len());
    assert_eq!(2, taken.len());
    for e in taken {
        e.action();
    }
    assert_eq!(vec![1, 2], *log.borrow());
}
