use rusths::callback::{
    callback_handler, register_callback, unregister_callback, CallbackRegistry, CallbackWrapper,
};
use std::cell::RefCell;
use std::rc::Rc;

type Log = Rc<RefCell<Vec<(usize, i32)>>>;

fn recorder(log: &Log, tag: usize) -> Box<dyn Fn(i32) -> usize> {
    let log = log.clone();
    Box::new(move |p| {
        log.borrow_mut().push((tag, p));
        tag
    })
}

#[test]
fn register_then_dispatch_invokes_once() {
    let log: Log = Rc::new(RefCell::new(Vec::new()));
    let mut registry = CallbackRegistry::new();
    let h = register_callback(&mut registry, recorder(&log, 7));
    assert_eq!(h, 0);
    assert_eq!(callback_handler(&registry, 42, h), Some(7));
    assert_eq!(*log.borrow(), vec![(7, 42)]);
}

#[test]
fn unregister_then_dispatch_invokes_nothing() {
    let log: Log = Rc::new(RefCell::new(Vec::new()));
    let mut registry = CallbackRegistry::new();
    let h = register_callback(&mut registry, recorder(&log, 7));
    unregister_callback(&mut registry, h);
    assert_eq!(callback_handler(&registry, 42, h), None);
    assert!(log.borrow().is_empty());
}

#[test]
fn dispatch_on_unknown_handle_is_ignored() {
    let log: Log = Rc::new(RefCell::new(Vec::new()));
    let mut registry = CallbackRegistry::new();
    register_callback(&mut registry, recorder(&log, 1));
    assert_eq!(callback_handler(&registry, 5, 99), None);
    assert!(log.borrow().is_empty());
}

#[test]
fn handles_are_given_in_order() {
    let log: Log = Rc::new(RefCell::new(Vec::new()));
    let mut registry = CallbackRegistry::new();
    assert_eq!(register_callback(&mut registry, recorder(&log, 10)), 0);
    assert_eq!(register_callback(&mut registry, recorder(&log, 11)), 1);
    assert_eq!(register_callback(&mut registry, recorder(&log, 12)), 2);
    assert_eq!(registry.len(), 3);
}

#[test]
fn unregister_leaves_other_handles_alone() {
    let log: Log = Rc::new(RefCell::new(Vec::new()));
    let mut registry = CallbackRegistry::new();
    let a = register_callback(&mut registry, recorder(&log, 10));
    let b = register_callback(&mut registry, recorder(&log, 11));
    let c = register_callback(&mut registry, recorder(&log, 12));
    unregister_callback(&mut registry, a);
    assert_eq!(callback_handler(&registry, 1, a), None);
    assert_eq!(callback_handler(&registry, 2, b), Some(11));
    assert_eq!(callback_handler(&registry, 3, c), Some(12));
    assert_eq!(*log.borrow(), vec![(11, 2), (12, 3)]);
    let d = register_callback(&mut registry, recorder(&log, 13));
    assert_eq!(d, 3);
    assert_eq!(callback_handler(&registry, 4, d), Some(13));
}

#[test]
fn unregister_unknown_handle_changes_nothing() {
    let log: Log = Rc::new(RefCell::new(Vec::new()));
    let mut registry = CallbackRegistry::new();
    let a = register_callback(&mut registry, recorder(&log, 10));
    unregister_callback(&mut registry, 5);
    unregister_callback(&mut registry, usize::MAX);
    assert_eq!(registry.len(), 1);
    assert_eq!(callback_handler(&registry, 1, a), Some(10));
}

#[test]
fn unregister_twice_is_harmless() {
    let log: Log = Rc::new(RefCell::new(Vec::new()));
    let mut registry = CallbackRegistry::new();
    let a = register_callback(&mut registry, recorder(&log, 10));
    let b = register_callback(&mut registry, recorder(&log, 11));
    unregister_callback(&mut registry, a);
    unregister_callback(&mut registry, a);
    assert_eq!(callback_handler(&registry, 9, b), Some(11));
    assert!(registry.get(a).is_none());
    assert!(registry.get(b).is_some());
}

#[test]
fn wrapper_registers_and_releases() {
    let log: Log = Rc::new(RefCell::new(Vec::new()));
    let mut registry = CallbackRegistry::new();
    register_callback(&mut registry, recorder(&log, 1));
    let w = CallbackWrapper::new(&mut registry, recorder(&log, 2));
    let user_data = w.get_user_data();
    assert_eq!(user_data, 1);
    assert_eq!(callback_handler(&registry, 8, user_data), Some(2));
    w.release(&mut registry);
    assert_eq!(callback_handler(&registry, 8, user_data), None);
    assert_eq!(callback_handler(&registry, 9, 0), Some(1));
    assert_eq!(*log.borrow(), vec![(2, 8), (1, 9)]);
}
