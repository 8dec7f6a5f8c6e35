use ruru::any_object::AnyObject;
use ruru::class::fiber::Fiber;
use ruru::class::rproc::Proc;
use ruru::closure::{ClosureBody, ClosureScript};
use ruru::host::Host;
use ruru::types::{Category, HostError, Value};

fn fixed(v: Value) -> ClosureScript {
    ClosureScript { yields: vec![], body: ClosureBody::Fixed(v) }
}

#[test]
fn proc_call_returns_declared_result() {
    let mut host = Host::new();
    let v = host.new_fixnum(42);
    let p = Proc::new(&mut host, fixed(v));
    let r = p.call(&host, vec![]).unwrap();
    assert_eq!(r.value(), v);
    assert_eq!(host.fixnum_value(r.value()).unwrap(), 42);
}

#[test]
fn proc_call_echoes_an_argument_through_the_marshaller() {
    let mut host = Host::new();
    let p = Proc::new(&mut host, ClosureScript { yields: vec![], body: ClosureBody::Arg(1) });
    let a = AnyObject::from(host.new_fixnum(1));
    let b = AnyObject::from(host.new_fixnum(2));
    let c = AnyObject::from(host.new_fixnum(3));
    let r = p.call(&host, vec![a, b, c]).unwrap();
    assert_eq!(host.fixnum_value(r.value()).unwrap(), 2);
    // fewer arguments than the closure asks for: nil by convention
    let r = p.call(&host, vec![a]).unwrap();
    assert_eq!(r.value(), Value { bits: 0 });
}

#[test]
fn proc_call_on_wrong_handle_fails_with_type_mismatch() {
    let mut host = Host::new();
    let plain = host.new_object();
    let not_a_proc = Proc::from(plain);
    let err = not_a_proc.call(&host, vec![]).unwrap_err();
    assert_eq!(err, HostError::TypeMismatch(Category::Proc));
    assert_eq!(err.message(), "Error converting to Proc");
}

#[test]
fn proc_type_check_follows_runtime_category() {
    let mut host = Host::new();
    let v = host.new_fixnum(0);
    let p = Proc::new(&mut host, fixed(v));
    let plain = host.new_object();
    assert!(Proc::is_correct_type(&host, &AnyObject::from(p.value())));
    assert!(!Proc::is_correct_type(&host, &AnyObject::from(plain)));
    assert_eq!(Proc::error_message(), "Error converting to Proc");
}

#[test]
fn try_convert_is_a_checked_downcast() {
    let mut host = Host::new();
    let v = host.new_fixnum(6);
    let p = Proc::new(&mut host, fixed(v));
    let plain = host.new_object();

    let again = Proc::try_convert(&host, AnyObject::from(p.value())).unwrap();
    assert_eq!(again.value(), p.value());
    let r = again.call(&host, vec![]).unwrap();
    assert_eq!(r.value(), v);

    let err = Proc::try_convert(&host, AnyObject::from(plain)).unwrap_err();
    assert_eq!(err, HostError::TypeMismatch(Category::Proc));
    assert_eq!(err.message(), "Error converting to Proc");

    let err = Fiber::try_convert(&host, AnyObject::from(plain)).unwrap_err();
    assert_eq!(err.message(), "Error converting to Fiber");
}

#[test]
fn fiber_returning_fixed_value_then_dead() {
    let mut host = Host::new();
    let v = host.new_fixnum(9);
    let f = Fiber::new(&mut host, fixed(v));
    let first = f.resume(&mut host, vec![]).unwrap();
    assert_eq!(first.value(), v);
    let second = f.resume(&mut host, vec![]).unwrap_err();
    assert_eq!(second, HostError::InvalidCoroutineState);
}

#[test]
fn fiber_resume_yield_alternation() {
    let mut host = Host::new();
    let y1 = host.new_fixnum(1);
    let y2 = host.new_fixnum(2);
    let f = Fiber::new(
        &mut host,
        ClosureScript { yields: vec![y1], body: ClosureBody::Fixed(y2) },
    );
    assert_eq!(f.resume(&mut host, vec![]).unwrap().value(), y1);
    assert_eq!(f.resume(&mut host, vec![]).unwrap().value(), y2);
    assert_eq!(f.resume(&mut host, vec![]).unwrap_err(), HostError::InvalidCoroutineState);
}

#[test]
fn fiber_body_arguments_come_from_the_first_resume() {
    let mut host = Host::new();
    let y = host.new_fixnum(0);
    let x = host.new_fixnum(10);
    let z = host.new_fixnum(20);
    let f = Fiber::new(
        &mut host,
        ClosureScript { yields: vec![y], body: ClosureBody::Arg(0) },
    );
    // the first resume's arguments become the body's arguments
    assert_eq!(f.resume(&mut host, vec![AnyObject::from(x)]).unwrap().value(), y);
    // the second resume's arguments feed the suspended yield, not the body
    assert_eq!(f.resume(&mut host, vec![AnyObject::from(z)]).unwrap().value(), x);
}

#[test]
fn resuming_the_root_fiber_is_refused() {
    let mut host = Host::new();
    let current = Fiber::current(&host);
    assert_eq!(current.value(), Value { bits: 1 });
    let err = current.resume(&mut host, vec![]).unwrap_err();
    assert_eq!(err, HostError::InvalidCoroutineState);
}

#[test]
fn yielding_outside_any_fiber_is_refused() {
    let host = Host::new();
    let err = Fiber::yield_f(&host, vec![]).unwrap_err();
    assert_eq!(err, HostError::InvalidCoroutineState);
    assert_eq!(err.message(), "invalid coroutine state");
}

#[test]
fn fiber_resume_on_wrong_handle_fails_with_type_mismatch() {
    let mut host = Host::new();
    let plain = host.new_object();
    let not_a_fiber = Fiber::from(plain);
    let err = not_a_fiber.resume(&mut host, vec![]).unwrap_err();
    assert_eq!(err, HostError::TypeMismatch(Category::Fiber));
    assert_eq!(err.message(), "Error converting to Fiber");
    assert!(!Fiber::is_correct_type(&host, &AnyObject::from(plain)));
    assert_eq!(Fiber::error_message(), "Error converting to Fiber");
}
