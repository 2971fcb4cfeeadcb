use spiderweb::state::{
    offer, refresh, seed, Listener, Readable, State, Strong, Weak, WeakListener, Writeable,
};
use std::cell::RefCell;
use std::rc::Rc;

type Strongly = Box<dyn FnMut(&i32)>;
type Weakly = Box<dyn FnMut(&i32) -> bool>;
type Cell = State<i32, Strongly, Weakly, dyn Listener<i32>>;
type Log = Rc<RefCell<Vec<(char, i32)>>>;

struct Probe {
    name: char,
    log: Log,
}

impl Listener<i32> for Probe {
    fn receive(&self, v: &i32) {
        self.log.borrow_mut().push((self.name, *v));
    }
}

fn probe(name: char, log: &Log) -> Rc<dyn Listener<i32>> {
    Rc::new(Probe { name, log: log.clone() })
}

fn strongly(name: char, log: &Log) -> Strongly {
    let log = log.clone();
    Box::new(move |v: &i32| log.borrow_mut().push((name, *v)))
}

fn weakly(name: char, log: &Log, stay_while_below: i32) -> Weakly {
    let log = log.clone();
    Box::new(move |v: &i32| {
        log.borrow_mut().push((name, *v));
        *v < stay_while_below
    })
}

#[test]
fn new_cell_holds_its_value_and_no_subscribers() {
    let cell: Cell = State::new(3);
    assert_eq!(cell.get(), 3);
    assert_eq!(cell.strong_count(), 0);
    assert_eq!(cell.weak_count(), 0);
    assert_eq!(cell.with(|v| *v * 2), 6);
}

#[test]
fn set_serves_strong_subscribers_in_order_then_weak_ones() {
    let log: Log = Rc::default();
    let mut cell: Cell = State::new(0);
    cell.register_weak(weakly('w', &log, 100));
    cell.register(strongly('a', &log));
    cell.bind(probe('b', &log));
    cell.register(strongly('c', &log));
    cell.bind_weak(WeakListener::downgrade(&probe('x', &log)));
    let kept = probe('y', &log);
    cell.bind_weak(WeakListener::downgrade(&kept));
    cell.set(7);
    assert_eq!(cell.get(), 7);
    assert_eq!(*log.borrow(), vec![('a', 7), ('b', 7), ('c', 7), ('w', 7), ('y', 7)]);
    assert_eq!(cell.strong_count(), 3);
    assert_eq!(cell.weak_count(), 2);
}

#[test]
fn registration_does_not_notify() {
    let log: Log = Rc::default();
    let mut cell: Cell = State::new(0);
    cell.register(strongly('a', &log));
    cell.register_weak(weakly('w', &log, 100));
    assert!(log.borrow().is_empty());
    assert_eq!(cell.strong_count(), 1);
    assert_eq!(cell.weak_count(), 1);
}

#[test]
fn weak_callback_leaves_when_it_answers_false() {
    let log: Log = Rc::default();
    let mut cell: Cell = State::new(0);
    cell.register_weak(weakly('w', &log, 5));
    cell.set(1);
    assert_eq!(cell.weak_count(), 1);
    cell.set(5);
    assert_eq!(cell.weak_count(), 0);
    cell.set(2);
    assert_eq!(*log.borrow(), vec![('w', 1), ('w', 5)]);
}

#[test]
fn a_leaving_subscriber_is_replaced_by_the_last_one() {
    let log: Log = Rc::default();
    let mut cell: Cell = State::new(0);
    cell.register_weak(weakly('a', &log, 10));
    cell.register_weak(weakly('b', &log, 1));
    cell.register_weak(weakly('c', &log, 10));
    cell.register_weak(weakly('d', &log, 10));
    cell.set(1);
    assert_eq!(*log.borrow(), vec![('a', 1), ('b', 1), ('d', 1), ('c', 1)]);
    assert_eq!(cell.weak_count(), 3);
    log.borrow_mut().clear();
    cell.set(2);
    assert_eq!(*log.borrow(), vec![('a', 2), ('d', 2), ('c', 2)]);
}

#[test]
fn every_weak_subscriber_is_examined_once_even_if_all_leave() {
    let log: Log = Rc::default();
    let mut cell: Cell = State::new(0);
    for name in ['a', 'b', 'c', 'd', 'e'] {
        cell.register_weak(weakly(name, &log, 0));
    }
    cell.set(1);
    assert_eq!(cell.weak_count(), 0);
    let mut seen: Vec<char> = log.borrow().iter().map(|(name, _)| *name).collect();
    seen.sort();
    assert_eq!(seen, vec!['a', 'b', 'c', 'd', 'e']);
}

#[test]
fn dropped_weak_listener_is_not_invoked_and_leaves_the_list() {
    let log: Log = Rc::default();
    let mut cell: Cell = State::new(0);
    let owner = probe('x', &log);
    cell.bind_weak(WeakListener::downgrade(&owner));
    cell.set(1);
    assert_eq!(*log.borrow(), vec![('x', 1)]);
    assert_eq!(cell.weak_count(), 1);
    drop(owner);
    cell.set(2);
    assert_eq!(*log.borrow(), vec![('x', 1)]);
    assert_eq!(cell.weak_count(), 0);
}

#[test]
fn dropped_weak_listener_shortens_the_list_by_one() {
    let log: Log = Rc::default();
    let mut cell: Cell = State::new(0);
    let first = probe('p', &log);
    let second = probe('q', &log);
    let third = probe('r', &log);
    cell.bind_weak(WeakListener::downgrade(&first));
    cell.bind_weak(WeakListener::downgrade(&second));
    cell.bind_weak(WeakListener::downgrade(&third));
    drop(second);
    let before = cell.weak_count();
    cell.set(9);
    assert_eq!(cell.weak_count(), before - 1);
    assert_eq!(*log.borrow(), vec![('p', 9), ('r', 9)]);
}

#[test]
fn weak_reference_resolves_only_while_owned() {
    let log: Log = Rc::default();
    let owner = probe('x', &log);
    let weak = WeakListener::downgrade(&owner);
    assert!(weak.upgrade().is_some());
    drop(owner);
    assert!(weak.upgrade().is_none());
}

#[test]
fn strong_listener_is_kept_alive_by_the_cell() {
    let log: Log = Rc::default();
    let mut cell: Cell = State::new(0);
    let owner = probe('s', &log);
    let weak = WeakListener::downgrade(&owner);
    cell.bind(owner);
    assert!(weak.upgrade().is_some());
    cell.set(4);
    assert_eq!(*log.borrow(), vec![('s', 4)]);
    drop(cell);
    assert!(weak.upgrade().is_none());
}

#[test]
fn update_changes_in_place_notifies_once_and_returns() {
    let log: Log = Rc::default();
    let mut cell: Cell = State::new(10);
    cell.register(strongly('a', &log));
    let previous = cell.update(|v| {
        let old = *v;
        *v += 5;
        old
    });
    assert_eq!(previous, 10);
    assert_eq!(cell.get(), 15);
    assert_eq!(*log.borrow(), vec![('a', 15)]);
}

#[test]
fn replace_and_take_return_the_previous_value() {
    let log: Log = Rc::default();
    let mut cell: Cell = State::new(10);
    cell.register(strongly('a', &log));
    assert_eq!(cell.replace(11), 10);
    assert_eq!(cell.take(), 11);
    assert_eq!(cell.get(), 0);
    assert_eq!(*log.borrow(), vec![('a', 11), ('a', 0)]);
}

#[test]
fn notify_alone_serves_the_current_value() {
    let log: Log = Rc::default();
    let mut cell: Cell = State::new(3);
    cell.register(strongly('a', &log));
    cell.notify();
    cell.notify();
    assert_eq!(*log.borrow(), vec![('a', 3), ('a', 3)]);
}

#[test]
fn writeable_notifies_what_was_subscribed_through_its_readable_face() {
    let log: Log = Rc::default();
    let mut cell: Writeable<i32, Strongly, Weakly, dyn Listener<i32>> = Writeable::new(1);
    cell.readable_mut().subscribe(strongly('a', &log));
    cell.readable_mut().subscribe_weak(weakly('w', &log, 3));
    assert_eq!(cell.readable().get(), 1);
    cell.set(2);
    assert_eq!(cell.replace(3), 2);
    assert_eq!(cell.update(|v| {
        *v *= 2;
        *v
    }), 6);
    assert_eq!(cell.take(), 6);
    assert_eq!(cell.readable().with(|v| *v), 0);
    assert_eq!(
        *log.borrow(),
        vec![('a', 2), ('w', 2), ('a', 3), ('w', 3), ('a', 6), ('a', 0)]
    );
}

#[test]
fn readable_holds_its_value() {
    let cell: Readable<i32, Strongly, Weakly, dyn Listener<i32>> = Readable::new(8);
    assert_eq!(cell.get(), 8);
    assert_eq!(cell.with(|v| v + 1), 9);
}

type Shared = Rc<RefCell<State<String, Box<dyn FnMut(&String)>, Box<dyn FnMut(&String) -> bool>, dyn Listener<String>>>>;

fn mapped(source: &mut Cell, mut f: impl FnMut(&i32) -> String + 'static) -> Shared {
    let derived: Shared = Rc::new(RefCell::new(seed(source, &mut f)));
    let target = Rc::downgrade(&derived);
    source.register_weak(Box::new(move |v: &i32| {
        let alive = target.upgrade();
        match &alive {
            Some(cell) => refresh(Some(&mut *cell.borrow_mut()), &mut f, v),
            None => refresh::<i32, String, Box<dyn FnMut(&String)>, Box<dyn FnMut(&String) -> bool>, dyn Listener<String>, _>(None, &mut f, v),
        }
    }));
    derived
}

#[test]
fn derived_cell_follows_its_source() {
    let mut source: Cell = State::new(1);
    let derived = mapped(&mut source, |v| format!("<{}>", v * 2));
    assert_eq!(derived.borrow().with(|s| s.clone()), "<2>");
    assert_eq!(source.weak_count(), 1);
    for v in [5, -3, 0, 1000] {
        source.set(v);
        assert_eq!(derived.borrow().with(|s| s.clone()), format!("<{}>", v * 2));
    }
    source.update(|v| *v += 1);
    assert_eq!(derived.borrow().with(|s| s.clone()), "<2002>");
    assert_eq!(source.weak_count(), 1);
}

#[test]
fn derived_cell_notifies_its_own_subscribers() {
    let seen: Rc<RefCell<Vec<String>>> = Rc::default();
    let mut source: Cell = State::new(1);
    let derived = mapped(&mut source, |v| v.to_string());
    let sink = seen.clone();
    derived
        .borrow_mut()
        .register(Box::new(move |s: &String| sink.borrow_mut().push(s.clone())));
    source.set(2);
    source.set(3);
    assert_eq!(*seen.borrow(), vec!["2".to_string(), "3".to_string()]);
}

#[test]
fn dropped_derived_cell_leaves_its_source() {
    let mut source: Cell = State::new(1);
    let derived = mapped(&mut source, |v| v.to_string());
    assert_eq!(source.weak_count(), 1);
    drop(derived);
    source.set(2);
    assert_eq!(source.weak_count(), 0);
    source.set(3);
    assert_eq!(source.get(), 3);
}

#[test]
fn refresh_without_a_cell_asks_to_leave() {
    let mut calls = 0;
    let mut f = |v: &i32| {
        calls += 1;
        *v
    };
    let keep = refresh::<i32, i32, Strongly, Weakly, dyn Listener<i32>, _>(None, &mut f, &1);
    assert!(!keep);
    assert_eq!(calls, 0);
}

#[test]
fn offer_hands_the_value_to_a_live_listener_only() {
    let log: Log = Rc::default();
    let owner = probe('o', &log);
    let weak = WeakListener::downgrade(&owner);
    assert!(offer(weak.upgrade(), &3));
    assert_eq!(*log.borrow(), vec![('o', 3)]);
    drop(owner);
    assert!(!offer(weak.upgrade(), &4));
    assert_eq!(*log.borrow(), vec![('o', 3)]);
}

#[test]
fn subscribers_are_served_one_by_one() {
    let log: Log = Rc::default();
    let mut callback: Strong<Strongly, dyn Listener<i32>> = Strong::Callback(strongly('a', &log));
    let mut listener: Strong<Strongly, dyn Listener<i32>> = Strong::Listener(probe('b', &log));
    callback.receive(&1);
    listener.receive(&2);
    let mut stays: Weak<Weakly, dyn Listener<i32>> = Weak::Callback(weakly('c', &log, 10));
    let mut leaves: Weak<Weakly, dyn Listener<i32>> = Weak::Callback(weakly('d', &log, 0));
    let owner = probe('e', &log);
    let mut alive: Weak<Weakly, dyn Listener<i32>> = Weak::Listener(WeakListener::downgrade(&owner));
    let mut gone: Weak<Weakly, dyn Listener<i32>> =
        Weak::Listener(WeakListener::downgrade(&probe('f', &log)));
    assert!(stays.deliver(&3));
    assert!(!leaves.deliver(&4));
    assert!(alive.deliver(&5));
    assert!(!gone.deliver(&6));
    assert_eq!(*log.borrow(), vec![('a', 1), ('b', 2), ('c', 3), ('d', 4), ('e', 5)]);
}

#[test]
fn a_subscriber_cannot_change_the_cell_that_notifies_it() {
    let refused: Rc<RefCell<Vec<bool>>> = Rc::default();
    let shared: Rc<RefCell<Cell>> = Rc::new(RefCell::new(State::new(0)));
    let back = Rc::downgrade(&shared);
    let sink = refused.clone();
    shared.borrow_mut().register(Box::new(move |_: &i32| {
        let cell = back.upgrade().unwrap();
        let attempt = cell.try_borrow_mut();
        sink.borrow_mut().push(attempt.is_err());
    }));
    shared.borrow_mut().set(1);
    shared.borrow_mut().update(|v| *v += 1);
    assert_eq!(*refused.borrow(), vec![true, true]);
    assert_eq!(shared.borrow().get(), 2);
}

#[test]
fn references_boxes_and_shared_pointers_listen_for_their_listener() {
    let log: Log = Rc::default();
    let plain = Probe { name: 'p', log: log.clone() };
    let by_ref: &Probe = &plain;
    by_ref.receive(&1);
    Listener::receive(&by_ref, &2);
    let boxed: Box<Probe> = Box::new(Probe { name: 'q', log: log.clone() });
    Listener::receive(&boxed, &3);
    let shared: Rc<Probe> = Rc::new(Probe { name: 'r', log: log.clone() });
    Listener::receive(&shared, &4);
    assert_eq!(*log.borrow(), vec![('p', 1), ('p', 2), ('q', 3), ('r', 4)]);
}
