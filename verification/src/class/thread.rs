//! `Thread`: a green thread scheduled preemptively by the runtime, plus the
//! primitives for running blocking native work with the global lock
//! released.

use vstd::prelude::*;

use crate::any_object::AnyObject;
use crate::binding;
use crate::host::{same_but_heap, Host, HostObject};
use crate::types::{Category, HostError, RawFd, Value};

verus! {

/// A handle taken to refer to a green thread. Construction from a raw
/// handle is unchecked; `is_correct_type` is the checked downcast, and
/// `join_value` refuses a handle whose runtime category is not the thread
/// category.
#[derive(Clone, Copy, PartialEq, Eq, Structural, Debug)]
pub struct Thread {
    pub value: Value,
}

impl Thread {
    /// Schedules `func` on a new green thread; its return value becomes the
    /// thread's eventual value, retrievable through `join_value`. The model
    /// collapses scheduling: the body runs to completion, under the lock,
    /// before the creator observes the thread.
    pub fn new<F: FnOnce() -> AnyObject>(host: &mut Host, func: F) -> (t: Thread)
        requires
            old(host).wf(),
            old(host).gvl_held,
            call_requires(func, ()),
        ensures
            final(host).wf(),
            same_but_heap(*old(host), *final(host)),
            final(host).boxes@ == old(host).boxes@,
            t.value.bits == old(host).objects@.len(),
            final(host).spec_category_of(t.value) == Category::Thread,
            exists|o: AnyObject|
                #[trigger] call_ensures(func, (), o) && final(host).objects@ == old(
                    host,
                ).objects@.push(HostObject::ThreadObj { retval: o.value }),
    {
        let obj = func();
        Thread::from(binding::thread::create(host, obj.value()))
    }

    /// The thread's eventual value, through the runtime's normal
    /// thread-join semantics.
    pub fn join_value(&self, host: &Host) -> (r: Result<AnyObject, HostError>)
        ensures
            r is Ok <==> host.spec_category_of(self.value) == Category::Thread,
            r matches Ok(res) ==> host.objects@[self.value.bits as int] == (HostObject::ThreadObj {
                retval: res.value,
            }),
            r matches Err(e) ==> e == HostError::TypeMismatch(Category::Thread),
    {
        match binding::thread::thread_value(host, self.value) {
            Ok(v) => Ok(AnyObject::from(v)),
            Err(e) => Err(e),
        }
    }

    /// Tells the scheduler this green thread waits for a readable event on
    /// the given descriptor; other green threads may run meanwhile.
    pub fn wait_fd(host: &mut Host, fd: RawFd)
        ensures
            *final(host) == (Host { io_waits: final(host).io_waits, ..*old(host) }),
            final(host).io_waits@ == old(host).io_waits@.push(fd),
    {
        binding::thread::wait_fd(host, fd);
    }

    /// Releases the global lock for the current thread, runs `func`, and
    /// reacquires the lock before returning `func`'s result. Interaction
    /// with managed values is not allowed while the lock is released: `func`
    /// takes and returns plain native data only, and the mutable borrow of
    /// the runtime state keeps managed handles out of its reach. If an
    /// interruption request is pending and `unblock_func` was given, the
    /// runtime invokes it so `func` returns promptly.
    pub fn call_without_gvl<F: FnOnce() -> R, R, G: FnOnce()>(
        host: &mut Host,
        func: F,
        unblock_func: Option<G>,
    ) -> (r: R)
        requires
            old(host).gvl_held,
            call_requires(func, ()),
            unblock_func matches Some(g) ==> call_requires(g, ()),
        ensures
            final(host).gvl_held,
            call_ensures(func, (), r),
            final(host).objects@ == old(host).objects@,
            final(host).boxes@ == old(host).boxes@,
            final(host).symbols@ == old(host).symbols@,
            final(host).io_waits@ == old(host).io_waits@,
            old(host).pending_interrupt ==> (unblock_func matches Some(g) ==> call_ensures(
                g,
                (),
                (),
            )),
            final(host).pending_interrupt == (old(host).pending_interrupt && unblock_func is None),
    {
        binding::thread::call_without_gvl(host, func, unblock_func)
    }

    /// The alternate lock-release entry point; it honors the same contract
    /// as `call_without_gvl`.
    pub fn call_without_gvl2<F: FnOnce() -> R, R, G: FnOnce()>(
        host: &mut Host,
        func: F,
        unblock_func: Option<G>,
    ) -> (r: R)
        requires
            old(host).gvl_held,
            call_requires(func, ()),
            unblock_func matches Some(g) ==> call_requires(g, ()),
        ensures
            final(host).gvl_held,
            call_ensures(func, (), r),
            final(host).objects@ == old(host).objects@,
            final(host).boxes@ == old(host).boxes@,
            final(host).symbols@ == old(host).symbols@,
            final(host).io_waits@ == old(host).io_waits@,
            old(host).pending_interrupt ==> (unblock_func matches Some(g) ==> call_ensures(
                g,
                (),
                (),
            )),
            final(host).pending_interrupt == (old(host).pending_interrupt && unblock_func is None),
    {
        binding::thread::call_without_gvl2(host, func, unblock_func)
    }

    /// The inverse: reacquires the lock if not held, runs `func` — which
    /// may touch managed values — and releases back to the caller's prior
    /// state.
    pub fn call_with_gvl<F: FnOnce() -> R, R>(host: &mut Host, func: F) -> (r: R)
        requires
            call_requires(func, ()),
        ensures
            call_ensures(func, (), r),
            *final(host) == *old(host),
    {
        binding::thread::call_with_gvl(host, func)
    }

    /// The underlying handle.
    pub fn value(&self) -> (v: Value)
        ensures
            v == self.value,
    {
        self.value
    }

    /// The checked downcast: wraps the handle as a thread exactly when the
    /// runtime reports the thread category, and fails with the fixed
    /// conversion error otherwise.
    pub fn try_convert(host: &Host, object: AnyObject) -> (r: Result<Thread, HostError>)
        ensures
            r is Ok <==> host.spec_category_of(object.value) == Category::Thread,
            r matches Ok(t) ==> t.value == object.value,
            r matches Err(e) ==> e == HostError::TypeMismatch(Category::Thread),
    {
        if Thread::is_correct_type(host, &object) {
            Ok(Thread::from(object.value))
        } else {
            Err(HostError::TypeMismatch(Category::Thread))
        }
    }

    /// The checked-downcast test: does the runtime report this object's
    /// category as the thread category?
    pub fn is_correct_type(host: &Host, object: &AnyObject) -> (b: bool)
        ensures
            b == (host.spec_category_of(object.value) == Category::Thread),
    {
        host.category_of(object.value) == Category::Thread
    }

    /// The fixed message a failed conversion to `Thread` carries.
    pub fn error_message() -> (s: &'static str)
        ensures
            s@ == "Error converting to Thread"@,
    {
        "Error converting to Thread"
    }
}

impl From<Value> for Thread {
    fn from(value: Value) -> (r: Self) {
        Thread { value: value }
    }
}

impl vstd::std_specs::convert::FromSpecImpl<Value> for Thread {
    open spec fn obeys_from_spec() -> bool {
        true
    }

    open spec fn from_spec(value: Value) -> Self {
        Thread { value: value }
    }
}

} // verus!
