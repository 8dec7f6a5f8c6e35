//! Fiber primitives: creation, resume, yield and the current-fiber query.
//!
//! Control between a fiber and its resumer strictly alternates: `resume`
//! blocks the caller until the fiber yields or returns, and the model runs
//! the body to that point inside `resume` itself. At every state the bridge
//! can observe, the root fiber is therefore the one executing.

use vstd::prelude::*;

use crate::closure::{box_create, eval_body_prefix, ClosureScript};
use crate::host::{
    fiber_resume_step, lemma_extend_preserves_wf, lemma_update_preserves_wf, root_fiber_value,
    same_but_heap, same_but_objects, FiberStatus, Host, HostObject,
};
use crate::types::{Category, HostError, Value};

verus! {

/// Boxes the closure and registers it as the body of a new fiber. The fiber
/// starts in the created state, having delivered no yield.
pub fn new(host: &mut Host, func: ClosureScript) -> (v: Value)
    requires
        old(host).wf(),
    ensures
        final(host).wf(),
        same_but_heap(*old(host), *final(host)),
        final(host).boxes@ == old(host).boxes@.push(func),
        final(host).objects@ == old(host).objects@.push(
            HostObject::FiberObj {
                box_id: old(host).boxes@.len() as usize,
                pos: 0,
                status: FiberStatus::Created,
                ret: Value { bits: 0 },
            },
        ),
        v.bits == old(host).objects@.len(),
        final(host).spec_category_of(v) == Category::Fiber,
        final(host).fiber_box_of(v) == old(host).boxes@.len(),
        final(host).fiber_model_of(v).pos == 0,
        final(host).fiber_model_of(v).status is Created,
{
    let box_id = box_create(host, func);
    let ghost mid = *host;
    let bits = host.objects.len();
    let obj = HostObject::FiberObj {
        box_id,
        pos: 0,
        status: FiberStatus::Created,
        ret: Value { bits: 0 },
    };
    host.objects.push(obj);
    proof {
        lemma_extend_preserves_wf(mid, *host, obj);
    }
    Value { bits }
}

/// The resume primitive: transfers control to the fiber, passing the raw
/// arguments, and blocks the caller until the fiber yields or returns. A
/// handle of another category is refused outright; resuming the root fiber
/// or a finished fiber is a scheduler error, surfaced, never swallowed.
pub fn resume(host: &mut Host, fiber: Value, argc: usize, argv: &Vec<Value>) -> (r: Result<
    Value,
    HostError,
>)
    requires
        old(host).wf(),
        argc <= argv@.len(),
    ensures
        final(host).wf(),
        same_but_objects(*old(host), *final(host)),
        old(host).spec_category_of(fiber) != Category::Fiber ==> *final(host) == *old(host) && r
            == Err::<Value, HostError>(HostError::TypeMismatch(Category::Fiber)),
        old(host).spec_category_of(fiber) == Category::Fiber && old(host).objects@[fiber.bits as int] is RootFiber
            ==> *final(host) == *old(host) && r == Err::<Value, HostError>(
            HostError::InvalidCoroutineState,
        ),
        old(host).objects@[fiber.bits as int] is FiberObj && fiber.bits < old(
            host,
        ).objects@.len() ==> {
            let script = old(host).boxes@[old(host).fiber_box_of(fiber)];
            let (m2, res) = fiber_resume_step(
                script.yields@,
                script.body,
                old(host).fiber_model_of(fiber),
                argv@.take(argc as int),
            );
            &&& r == res
            &&& final(host).fiber_model_of(fiber) == m2
            &&& final(host).fiber_box_of(fiber) == old(host).fiber_box_of(fiber)
            &&& final(host).objects@.len() == old(host).objects@.len()
            &&& forall|i: int|
                0 <= i < old(host).objects@.len() && i != fiber.bits as int
                    ==> final(host).objects@[i] == old(host).objects@[i]
            &&& final(host).objects@[fiber.bits as int] is FiberObj
        },
{
    if fiber.bits >= host.objects.len() {
        return Err(HostError::TypeMismatch(Category::Fiber));
    }
    match host.objects[fiber.bits] {
        HostObject::RootFiber => Err(HostError::InvalidCoroutineState),
        HostObject::FiberObj { box_id, pos, status, ret } => {
            proof {
                assert(host.obj_ok(host.objects@[fiber.bits as int]));
            }
            if status == FiberStatus::Done {
                return Err(HostError::InvalidCoroutineState);
            }
            let ret2 = if status == FiberStatus::Created {
                eval_body_prefix(&host.boxes[box_id].body, argc, argv)
            } else {
                ret
            };
            let ghost pre = *host;
            if pos < host.boxes[box_id].yields.len() {
                let y = host.boxes[box_id].yields[pos];
                let obj = HostObject::FiberObj {
                    box_id,
                    pos: pos + 1,
                    status: FiberStatus::Suspended,
                    ret: ret2,
                };
                host.objects[fiber.bits] = obj;
                proof {
                    lemma_update_preserves_wf(pre, *host, fiber.bits as int, obj);
                }
                Ok(y)
            } else {
                let obj = HostObject::FiberObj { box_id, pos, status: FiberStatus::Done, ret: ret2 };
                host.objects[fiber.bits] = obj;
                proof {
                    lemma_update_preserves_wf(pre, *host, fiber.bits as int, obj);
                }
                Ok(ret2)
            }
        },
        _ => Err(HostError::TypeMismatch(Category::Fiber)),
    }
}

/// The yield primitive: suspends the currently executing fiber, handing the
/// raw arguments back to whoever last resumed it. The model runs fiber
/// bodies to their next suspension inside `resume` itself, so whenever this
/// primitive can be reached the root fiber is executing — and the root fiber
/// has no parent to yield to, which the scheduler refuses rather than
/// ignores.
pub fn yield_f(host: &Host, argc: usize, argv: &Vec<Value>) -> (r: Result<Value, HostError>)
    requires
        argc <= argv@.len(),
    ensures
        r == Err::<Value, HostError>(HostError::InvalidCoroutineState),
{
    let _ = host;
    let _ = argv;
    Err(HostError::InvalidCoroutineState)
}

/// The current-fiber query: a handle to the presently executing fiber. At
/// every observable state that is the root fiber.
pub fn current(host: &Host) -> (v: Value)
    requires
        host.wf(),
    ensures
        v == root_fiber_value(),
        host.spec_category_of(v) == Category::Fiber,
{
    let _ = host;
    Value { bits: 1 }
}

} // verus!
