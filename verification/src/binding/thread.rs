//! Thread primitives: green-thread creation, the I/O readiness hint, and
//! the global-lock release/reacquire protocol.

use vstd::prelude::*;

use crate::host::{lemma_extend_preserves_wf, same_but_heap, Host, HostObject};
use crate::types::{Category, HostError, RawFd, Value};

verus! {

/// Registers a green thread whose eventual value — what the runtime's
/// thread-join primitive will deliver — is the given handle. The caller runs
/// the thread's body and hands its return value here; the model collapses
/// scheduling, so the body has run to completion by the time the creator can
/// observe the thread.
pub fn create(host: &mut Host, retval: Value) -> (v: Value)
    requires
        old(host).wf(),
    ensures
        final(host).wf(),
        same_but_heap(*old(host), *final(host)),
        final(host).boxes@ == old(host).boxes@,
        final(host).objects@ == old(host).objects@.push(HostObject::ThreadObj { retval }),
        v.bits == old(host).objects@.len(),
        final(host).spec_category_of(v) == Category::Thread,
{
    let ghost pre = *host;
    let bits = host.objects.len();
    host.objects.push(HostObject::ThreadObj { retval });
    proof {
        lemma_extend_preserves_wf(pre, *host, HostObject::ThreadObj { retval });
    }
    Value { bits }
}

/// The thread-join primitive: the eventual value of a green thread.
pub fn thread_value(host: &Host, thread: Value) -> (r: Result<Value, HostError>)
    ensures
        r is Ok <==> host.spec_category_of(thread) == Category::Thread,
        r matches Ok(res) ==> host.objects@[thread.bits as int] == (HostObject::ThreadObj {
            retval: res,
        }),
        r matches Err(e) ==> e == HostError::TypeMismatch(Category::Thread),
{
    if thread.bits < host.objects.len() {
        match host.objects[thread.bits] {
            HostObject::ThreadObj { retval } => Ok(retval),
            _ => Err(HostError::TypeMismatch(Category::Thread)),
        }
    } else {
        Err(HostError::TypeMismatch(Category::Thread))
    }
}

/// Tells the scheduler the current green thread is blocked until the given
/// file descriptor is readable; other green threads may run meanwhile. The
/// hint is recorded and nothing else changes — on a platform without
/// descriptor polling the runtime ignores it.
pub fn wait_fd(host: &mut Host, fd: RawFd)
    ensures
        *final(host) == (Host { io_waits: final(host).io_waits, ..*old(host) }),
        final(host).io_waits@ == old(host).io_waits@.push(fd),
{
    host.io_waits.push(fd);
}

/// Releases the global lock, runs `func`, and reacquires the lock before
/// returning `func`'s result — on every exit path, so the release is
/// strictly nested. While the lock is out, `func` can touch no managed
/// value: the runtime state is mutably lent to this call, so the borrow
/// checker keeps any capture of it out of `func`, and plain data is all that
/// crosses.
///
/// `unblock_func` is the one cancellation channel: if an interruption
/// request is pending, the runtime invokes the callback so that `func`
/// returns promptly, and the request is consumed. The real scheduler invokes
/// it from another thread while `func` runs; the model, which is
/// single-threaded, delivers it just before.
pub fn call_without_gvl<F: FnOnce() -> R, R, G: FnOnce()>(
    host: &mut Host,
    func: F,
    unblock_func: Option<G>,
) -> (r: R)
    requires
        old(host).gvl_held,
        call_requires(func, ()),
        unblock_func matches Some(g) ==> call_requires(g, ()),
    ensures
        final(host).gvl_held,
        call_ensures(func, (), r),
        final(host).objects@ == old(host).objects@,
        final(host).boxes@ == old(host).boxes@,
        final(host).symbols@ == old(host).symbols@,
        final(host).io_waits@ == old(host).io_waits@,
        old(host).pending_interrupt ==> (unblock_func matches Some(g) ==> call_ensures(g, (), ())),
        final(host).pending_interrupt == (old(host).pending_interrupt && unblock_func is None),
{
    host.gvl_held = false;
    let interrupted = host.pending_interrupt;
    match unblock_func {
        Some(g) => {
            if interrupted {
                g();
                host.pending_interrupt = false;
            } else {
                let _ = g;
            }
        },
        None => {},
    }
    let r = func();
    host.gvl_held = true;
    r
}

/// The alternate lock-release primitive the runtime exposes. Its
/// interruption contract is the same as `call_without_gvl`'s; runtimes have
/// historically offered two entry points with subtly different guarantees,
/// and both must honor the one contract stated there.
pub fn call_without_gvl2<F: FnOnce() -> R, R, G: FnOnce()>(
    host: &mut Host,
    func: F,
    unblock_func: Option<G>,
) -> (r: R)
    requires
        old(host).gvl_held,
        call_requires(func, ()),
        unblock_func matches Some(g) ==> call_requires(g, ()),
    ensures
        final(host).gvl_held,
        call_ensures(func, (), r),
        final(host).objects@ == old(host).objects@,
        final(host).boxes@ == old(host).boxes@,
        final(host).symbols@ == old(host).symbols@,
        final(host).io_waits@ == old(host).io_waits@,
        old(host).pending_interrupt ==> (unblock_func matches Some(g) ==> call_ensures(g, (), ())),
        final(host).pending_interrupt == (old(host).pending_interrupt && unblock_func is None),
{
    call_without_gvl(host, func, unblock_func)
}

/// The inverse protocol, for native code that may or may not hold the lock:
/// acquires the lock, runs `func` — which may now touch managed values —
/// and releases back to the caller's prior state.
pub fn call_with_gvl<F: FnOnce() -> R, R>(host: &mut Host, func: F) -> (r: R)
    requires
        call_requires(func, ()),
    ensures
        call_ensures(func, (), r),
        *final(host) == *old(host),
{
    let was_held = host.gvl_held;
    host.gvl_held = true;
    let r = func();
    host.gvl_held = was_held;
    r
}

} // verus!
