use std::sync::atomic::{AtomicBool, Ordering};
use std::sync::Arc;

use ruru::any_object::AnyObject;
use ruru::binding::symbol::{id_to_name, id_to_sym, intern, sym_to_id, value_to_str, value_to_string};
use ruru::class::thread::Thread;
use ruru::host::Host;
use ruru::types::{Category, HostError};

#[test]
fn thread_eventual_value_is_the_closure_result() {
    let mut host = Host::new();
    let computation_result: i64 = 1 + 2;
    let v = host.new_fixnum(computation_result);
    let t = Thread::new(&mut host, move || AnyObject::from(v));
    let got = t.join_value(&host).unwrap();
    assert_eq!(host.fixnum_value(got.value()).unwrap(), 3);
}

#[test]
fn thread_join_on_wrong_handle_fails_with_type_mismatch() {
    let mut host = Host::new();
    let plain = host.new_object();
    let not_a_thread = Thread::from(plain);
    let err = not_a_thread.join_value(&host).unwrap_err();
    assert_eq!(err, HostError::TypeMismatch(Category::Thread));
    assert_eq!(err.message(), "Error converting to Thread");
    assert!(!Thread::is_correct_type(&host, &AnyObject::from(plain)));
    assert_eq!(Thread::error_message(), "Error converting to Thread");
}

#[test]
fn thread_try_convert_is_a_checked_downcast() {
    let mut host = Host::new();
    let v = host.new_fixnum(0);
    let t = Thread::new(&mut host, move || AnyObject::from(v));
    let plain = host.new_object();
    let again = Thread::try_convert(&host, AnyObject::from(t.value())).unwrap();
    assert_eq!(again.value(), t.value());
    let err = Thread::try_convert(&host, AnyObject::from(plain)).unwrap_err();
    assert_eq!(err.message(), "Error converting to Thread");
}

#[test]
fn call_without_gvl_returns_result_and_reacquires_lock() {
    let mut host = Host::new();
    assert!(host.gvl_is_held());
    let r = Thread::call_without_gvl(&mut host, || 40 + 2, None::<fn()>);
    assert_eq!(r, 42);
    // the lock is observably held again immediately after return
    assert!(host.gvl_is_held());
}

#[test]
fn call_without_gvl_unblock_makes_looping_work_return() {
    let mut host = Host::new();
    let unblocked = Arc::new(AtomicBool::new(false));
    let seen_by_work = unblocked.clone();
    let set_by_unblock = unblocked.clone();
    // an interruption request is pending before the blocking work starts
    host.raise_interrupt();
    let r = Thread::call_without_gvl2(
        &mut host,
        move || {
            // loops until the unblock callback fires; without it, forever
            while !seen_by_work.load(Ordering::SeqCst) {}
            7
        },
        Some(move || set_by_unblock.store(true, Ordering::SeqCst)),
    );
    assert_eq!(r, 7);
    assert!(host.gvl_is_held());
    assert!(unblocked.load(Ordering::SeqCst));
    // the interruption request was consumed by the delivery
    assert!(!host.pending_interrupt);
}

#[test]
fn call_with_gvl_runs_under_the_lock_and_restores_state() {
    let mut host = Host::new();
    let r = Thread::call_with_gvl(&mut host, || 5);
    assert_eq!(r, 5);
    assert!(host.gvl_is_held());
}

#[test]
fn wait_fd_records_the_readiness_hint() {
    let mut host = Host::new();
    Thread::wait_fd(&mut host, 5);
    Thread::wait_fd(&mut host, 9);
    assert_eq!(host.io_waits, vec![5, 9]);
}

#[test]
fn symbol_round_trip() {
    let mut host = Host::new();
    let id = intern(&mut host, String::from("each"));
    let sym = id_to_sym(&host, id);
    assert_eq!(sym_to_id(&host, sym).unwrap(), id);
    assert_eq!(id_to_name(&host, id), "each");
    assert_eq!(value_to_str(&host, sym).unwrap(), "each");
    assert_eq!(value_to_string(&host, sym).unwrap(), String::from("each"));
}

#[test]
fn symbols_are_interned() {
    let mut host = Host::new();
    let id1 = intern(&mut host, String::from("name"));
    let id2 = intern(&mut host, String::from("name"));
    // equal names give equal identifiers
    assert_eq!(id1, id2);
    let s1 = id_to_sym(&host, id1);
    // unrelated heap activity leaves a symbol's handle alone
    let _ = host.new_object();
    let s2 = id_to_sym(&host, id1);
    assert_eq!(s1, s2);
    // a different name gets its own identifier and its own value
    let other = intern(&mut host, String::from("other"));
    assert_ne!(other, id1);
    let s3 = id_to_sym(&host, other);
    assert_ne!(s3, s1);
    assert_eq!(value_to_string(&host, s2).unwrap(), String::from("name"));
    assert_eq!(value_to_string(&host, s3).unwrap(), String::from("other"));
}

#[test]
fn symbol_read_on_wrong_handle_fails_with_type_mismatch() {
    let mut host = Host::new();
    let plain = host.new_object();
    let err = value_to_string(&host, plain).unwrap_err();
    assert_eq!(err, HostError::TypeMismatch(Category::Symbol));
    assert_eq!(err.message(), "Error converting to Symbol");
}

#[test]
fn fixnum_read_on_wrong_handle_fails_with_type_mismatch() {
    let mut host = Host::new();
    let plain = host.new_object();
    let err = host.fixnum_value(plain).unwrap_err();
    assert_eq!(err, HostError::TypeMismatch(Category::Fixnum));
}
