//! Proc primitives: materializing a proc around a boxed closure, and the
//! proc-invocation primitive.

use vstd::prelude::*;

use crate::closure::{box_create, trampoline, ClosureScript};
use crate::host::{lemma_extend_preserves_wf, same_but_heap, Host, HostObject};
use crate::types::{Category, HostError, Value};

verus! {

/// Boxes the closure and asks the runtime to materialize a proc object bound
/// to the trampoline and the box. Returns the new proc's handle.
pub fn new(host: &mut Host, closure: ClosureScript) -> (v: Value)
    requires
        old(host).wf(),
    ensures
        final(host).wf(),
        same_but_heap(*old(host), *final(host)),
        final(host).boxes@ == old(host).boxes@.push(closure),
        final(host).objects@ == old(host).objects@.push(
            HostObject::ProcObj { box_id: old(host).boxes@.len() as usize },
        ),
        v.bits == old(host).objects@.len(),
        final(host).spec_category_of(v) == Category::Proc,
        final(host).proc_box_of(v) == old(host).boxes@.len(),
{
    let box_id = box_create(host, closure);
    let ghost mid = *host;
    let bits = host.objects.len();
    host.objects.push(HostObject::ProcObj { box_id });
    proof {
        lemma_extend_preserves_wf(mid, *host, HostObject::ProcObj { box_id });
    }
    Value { bits }
}

/// The proc-invocation primitive: checks the handle's category, then drives
/// the boxed closure through the trampoline with the raw arguments. The
/// runtime supplies a nil block by convention when none is given, so the box
/// identifier rides in the slot the block would use.
pub fn call(host: &Host, rproc: Value, argc: usize, argv: &Vec<Value>) -> (r: Result<
    Value,
    HostError,
>)
    requires
        host.wf(),
        argc <= argv@.len(),
    ensures
        r is Ok <==> host.spec_category_of(rproc) == Category::Proc,
        r matches Ok(res) ==> res == host.proc_call_result(rproc, argv@.take(argc as int)),
        r matches Err(e) ==> e == HostError::TypeMismatch(Category::Proc),
{
    if rproc.bits < host.objects.len() {
        match host.objects[rproc.bits] {
            HostObject::ProcObj { box_id } => {
                proof {
                    assert(host.obj_ok(host.objects@[rproc.bits as int]));
                }
                Ok(trampoline(host, rproc, argc, argv, box_id))
            },
            _ => Err(HostError::TypeMismatch(Category::Proc)),
        }
    } else {
        Err(HostError::TypeMismatch(Category::Proc))
    }
}

} // verus!
