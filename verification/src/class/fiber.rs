//! `Fiber`: a cooperative coroutine whose body is a native closure,
//! scheduled entirely by the runtime — one logical thread of control per
//! fiber, no preemption, resume/yield pairs strictly alternating.

use vstd::prelude::*;

use crate::any_object::AnyObject;
use crate::binding;
use crate::closure::{body_result, ClosureBody, ClosureScript};
use crate::host::{
    fiber_resume_step, root_fiber_value, same_but_heap, same_but_objects, FiberModel, Host,
};
use crate::marshal::{encode, encoded_of};
use crate::types::{Category, HostError, Value};

verus! {

/// A handle taken to refer to a fiber. Construction from a raw handle is
/// unchecked; `is_correct_type` is the checked downcast, and `resume`
/// refuses a handle whose runtime category is not the fiber category.
#[derive(Clone, Copy, PartialEq, Eq, Structural, Debug)]
pub struct Fiber {
    pub value: Value,
}

impl Fiber {
    /// Creates a new fiber around the closure: the same boxing path as a
    /// proc, registered as a fiber body. The fiber starts created, having
    /// delivered no yield.
    pub fn new(host: &mut Host, func: ClosureScript) -> (f: Fiber)
        requires
            old(host).wf(),
        ensures
            final(host).wf(),
            same_but_heap(*old(host), *final(host)),
            final(host).boxes@ == old(host).boxes@.push(func),
            f.value.bits == old(host).objects@.len(),
            final(host).spec_category_of(f.value) == Category::Fiber,
            final(host).objects@[f.value.bits as int] is FiberObj,
            final(host).fiber_box_of(f.value) == old(host).boxes@.len(),
            final(host).fiber_model_of(f.value).pos == 0,
            final(host).fiber_model_of(f.value).status is Created,
            final(host).objects@.len() == old(host).objects@.len() + 1,
            forall|i: int|
                0 <= i < old(host).objects@.len() ==> final(host).objects@[i] == old(
                    host,
                ).objects@[i],
    {
        Fiber::from(binding::fiber::new(host, func))
    }

    /// Resumes the fiber, passing `arguments`, and blocks the caller until
    /// the fiber yields or returns; the yielded or returned handle comes
    /// back. The first resume's arguments become the body's arguments.
    /// Resuming a finished fiber, or the root fiber, is a scheduler error,
    /// surfaced to the caller rather than swallowed.
    pub fn resume(&self, host: &mut Host, arguments: Vec<AnyObject>) -> (r: Result<
        AnyObject,
        HostError,
    >)
        requires
            old(host).wf(),
        ensures
            final(host).wf(),
            same_but_objects(*old(host), *final(host)),
            old(host).spec_category_of(self.value) != Category::Fiber ==> *final(host) == *old(
                host,
            ) && r == Err::<AnyObject, HostError>(HostError::TypeMismatch(Category::Fiber)),
            old(host).spec_category_of(self.value) == Category::Fiber && old(
                host,
            ).objects@[self.value.bits as int] is RootFiber ==> *final(host) == *old(host) && r
                == Err::<AnyObject, HostError>(HostError::InvalidCoroutineState),
            old(host).objects@[self.value.bits as int] is FiberObj && self.value.bits < old(
                host,
            ).objects@.len() ==> {
                let script = old(host).boxes@[old(host).fiber_box_of(self.value)];
                let (m2, res) = fiber_resume_step(
                    script.yields@,
                    script.body,
                    old(host).fiber_model_of(self.value),
                    encoded_of(arguments@),
                );
                &&& (r matches Ok(o) ==> res == Ok::<Value, HostError>(o.value))
                &&& (r matches Err(e) ==> res == Err::<Value, HostError>(e))
                &&& (r is Ok <==> res is Ok)
                &&& final(host).fiber_model_of(self.value) == m2
                &&& final(host).fiber_box_of(self.value) == old(host).fiber_box_of(self.value)
                &&& final(host).objects@.len() == old(host).objects@.len()
                &&& forall|i: int|
                    0 <= i < old(host).objects@.len() && i != self.value.bits as int
                        ==> final(host).objects@[i] == old(host).objects@[i]
                &&& final(host).objects@[self.value.bits as int] is FiberObj
            },
    {
        let (argc, argv) = encode(&arguments);
        proof {
            assert(argv@.take(argc as int) =~= encoded_of(arguments@));
        }
        match binding::fiber::resume(host, self.value, argc, &argv) {
            Ok(v) => Ok(AnyObject::from(v)),
            Err(e) => Err(e),
        }
    }

    /// Yields to the parent fiber, handing `arguments` back to whoever last
    /// called resume. Fiber bodies run to their next suspension inside
    /// `resume` itself, so whenever native code can reach this call the root
    /// fiber is executing — and it has no parent, which the scheduler
    /// refuses.
    pub fn yield_f(host: &Host, arguments: Vec<AnyObject>) -> (r: Result<AnyObject, HostError>)
        ensures
            r == Err::<AnyObject, HostError>(HostError::InvalidCoroutineState),
    {
        let (argc, argv) = encode(&arguments);
        match binding::fiber::yield_f(host, argc, &argv) {
            Ok(v) => Ok(AnyObject::from(v)),
            Err(e) => Err(e),
        }
    }

    /// The presently executing fiber. At every state the bridge can observe
    /// that is the root fiber.
    pub fn current(host: &Host) -> (f: Fiber)
        requires
            host.wf(),
        ensures
            f.value == root_fiber_value(),
            host.spec_category_of(f.value) == Category::Fiber,
    {
        Fiber::from(binding::fiber::current(host))
    }

    /// The underlying handle.
    pub fn value(&self) -> (v: Value)
        ensures
            v == self.value,
    {
        self.value
    }

    /// The checked downcast: wraps the handle as a fiber exactly when the
    /// runtime reports the fiber category, and fails with the fixed
    /// conversion error otherwise.
    pub fn try_convert(host: &Host, object: AnyObject) -> (r: Result<Fiber, HostError>)
        ensures
            r is Ok <==> host.spec_category_of(object.value) == Category::Fiber,
            r matches Ok(f) ==> f.value == object.value,
            r matches Err(e) ==> e == HostError::TypeMismatch(Category::Fiber),
    {
        if Fiber::is_correct_type(host, &object) {
            Ok(Fiber::from(object.value))
        } else {
            Err(HostError::TypeMismatch(Category::Fiber))
        }
    }

    /// The checked-downcast test: does the runtime report this object's
    /// category as the fiber category?
    pub fn is_correct_type(host: &Host, object: &AnyObject) -> (b: bool)
        ensures
            b == (host.spec_category_of(object.value) == Category::Fiber),
    {
        host.category_of(object.value) == Category::Fiber
    }

    /// The fixed message a failed conversion to `Fiber` carries.
    pub fn error_message() -> (s: &'static str)
        ensures
            s@ == "Error converting to Fiber"@,
    {
        "Error converting to Fiber"
    }
}

impl From<Value> for Fiber {
    fn from(value: Value) -> (r: Self) {
        Fiber { value: value }
    }
}

impl vstd::std_specs::convert::FromSpecImpl<Value> for Fiber {
    open spec fn obeys_from_spec() -> bool {
        true
    }

    open spec fn from_spec(value: Value) -> Self {
        Fiber { value: value }
    }
}

/// A fiber built from a closure that yields nothing and returns a fixed
/// value: the first resume returns that value and finishes the fiber, and
/// the second resume is refused as an invalid coroutine transition.
pub proof fn lemma_resume_fixed_value_then_dead(
    v: Value,
    m0: FiberModel,
    args1: Seq<Value>,
    args2: Seq<Value>,
)
    requires
        m0.status is Created,
        m0.pos == 0,
    ensures
        ({
            let (m1, r1) = fiber_resume_step(Seq::empty(), ClosureBody::Fixed(v), m0, args1);
            let (m2, r2) = fiber_resume_step(Seq::empty(), ClosureBody::Fixed(v), m1, args2);
            &&& r1 == Ok::<Value, HostError>(v)
            &&& m1.status is Done
            &&& r2 == Err::<Value, HostError>(HostError::InvalidCoroutineState)
            &&& m2 == m1
        }),
{
}

/// Resume/yield alternation for a fiber whose body yields once and then
/// returns: the first resume delivers the yielded handle, the second the
/// body's return value, and no third resume is valid.
pub proof fn lemma_resume_yield_alternation(
    y1: Value,
    body: ClosureBody,
    m0: FiberModel,
    args1: Seq<Value>,
    args2: Seq<Value>,
    args3: Seq<Value>,
)
    requires
        m0.status is Created,
        m0.pos == 0,
    ensures
        ({
            let (m1, r1) = fiber_resume_step(seq![y1], body, m0, args1);
            let (m2, r2) = fiber_resume_step(seq![y1], body, m1, args2);
            let (m3, r3) = fiber_resume_step(seq![y1], body, m2, args3);
            &&& r1 == Ok::<Value, HostError>(y1)
            &&& m1.status is Suspended
            &&& r2 == Ok::<Value, HostError>(body_result(body, args1))
            &&& m2.status is Done
            &&& r3 == Err::<Value, HostError>(HostError::InvalidCoroutineState)
        }),
{
    assert(seq![y1].len() == 1);
    assert(seq![y1][0] == y1);
}

} // verus!
