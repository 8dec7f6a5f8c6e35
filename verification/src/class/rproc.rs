//! `Proc`: a managed callable built from a native closure, invocable by the
//! runtime and by native code symmetrically.

use vstd::prelude::*;

use crate::any_object::AnyObject;
use crate::binding;
use crate::closure::ClosureScript;
use crate::host::{same_but_heap, Host, HostObject};
use crate::marshal::{encode, encoded_of};
use crate::types::{Category, HostError, Value};

verus! {

/// A handle taken to refer to a proc. Construction from a raw handle is
/// unchecked; `is_correct_type` is the checked downcast, and `call` refuses
/// a handle whose runtime category is not the proc category.
#[derive(Clone, Copy, PartialEq, Eq, Structural, Debug)]
pub struct Proc {
    pub value: Value,
}

impl Proc {
    /// Wraps the closure into the trampoline's fixed shape, boxes it, and
    /// has the runtime materialize a proc object bound to both.
    pub fn new(host: &mut Host, closure: ClosureScript) -> (p: Proc)
        requires
            old(host).wf(),
        ensures
            final(host).wf(),
            same_but_heap(*old(host), *final(host)),
            final(host).boxes@ == old(host).boxes@.push(closure),
            final(host).objects@ == old(host).objects@.push(
                HostObject::ProcObj { box_id: old(host).boxes@.len() as usize },
            ),
            p.value.bits == old(host).objects@.len(),
            final(host).spec_category_of(p.value) == Category::Proc,
            final(host).proc_box_of(p.value) == old(host).boxes@.len(),
    {
        Proc::from(binding::rproc::new(host, closure))
    }

    /// Calls the proc with the given arguments: marshals them into raw form,
    /// invokes the runtime's proc-invocation primitive (which supplies a nil
    /// block by convention), and wraps the result back up. Succeeds exactly
    /// when the handle really is a proc; otherwise the conversion failure
    /// comes back, never a silent coercion.
    pub fn call(&self, host: &Host, arguments: Vec<AnyObject>) -> (r: Result<AnyObject, HostError>)
        requires
            host.wf(),
        ensures
            r is Ok <==> host.spec_category_of(self.value) == Category::Proc,
            r matches Ok(res) ==> res.value == host.proc_call_result(
                self.value,
                encoded_of(arguments@),
            ),
            r matches Err(e) ==> e == HostError::TypeMismatch(Category::Proc),
    {
        let (argc, argv) = encode(&arguments);
        proof {
            assert(argv@.take(argc as int) =~= encoded_of(arguments@));
        }
        match binding::rproc::call(host, self.value, argc, &argv) {
            Ok(v) => Ok(AnyObject::from(v)),
            Err(e) => Err(e),
        }
    }

    /// The underlying handle.
    pub fn value(&self) -> (v: Value)
        ensures
            v == self.value,
    {
        self.value
    }

    /// The checked downcast: wraps the handle as a proc exactly when the
    /// runtime reports the proc category, and fails with the fixed
    /// conversion error otherwise.
    pub fn try_convert(host: &Host, object: AnyObject) -> (r: Result<Proc, HostError>)
        ensures
            r is Ok <==> host.spec_category_of(object.value) == Category::Proc,
            r matches Ok(p) ==> p.value == object.value,
            r matches Err(e) ==> e == HostError::TypeMismatch(Category::Proc),
    {
        if Proc::is_correct_type(host, &object) {
            Ok(Proc::from(object.value))
        } else {
            Err(HostError::TypeMismatch(Category::Proc))
        }
    }

    /// The checked-downcast test: does the runtime report this object's
    /// category as the proc category?
    pub fn is_correct_type(host: &Host, object: &AnyObject) -> (b: bool)
        ensures
            b == (host.spec_category_of(object.value) == Category::Proc),
    {
        host.category_of(object.value) == Category::Proc
    }

    /// The fixed message a failed conversion to `Proc` carries.
    pub fn error_message() -> (s: &'static str)
        ensures
            s@ == "Error converting to Proc"@,
    {
        "Error converting to Proc"
    }
}

impl From<Value> for Proc {
    fn from(value: Value) -> (r: Self) {
        Proc { value: value }
    }
}

impl vstd::std_specs::convert::FromSpecImpl<Value> for Proc {
    open spec fn obeys_from_spec() -> bool {
        true
    }

    open spec fn from_spec(value: Value) -> Self {
        Proc { value: value }
    }
}

} // verus!
