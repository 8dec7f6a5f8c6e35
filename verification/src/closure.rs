//! The opaque closure box and the trampoline.
//!
//! The runtime's native-callback registration only accepts plain function
//! pointers, so captured closures travel as type-erased heap boxes: the box's
//! identifier is smuggled through an argument slot the runtime threads
//! through every call, and one fixed trampoline recovers the closure and
//! invokes it. No per-closure entry point is ever produced. The model keeps
//! the boxes in a registry owned by the host; a box's index plays the role of
//! its address, and a box, once registered, lives for the rest of the process
//! (the runtime's collector cannot free foreign memory, a documented
//! trade-off).
//!
//! A boxed closure is modeled by a script: the handles it yields, in order,
//! while running as a fiber body, and what it returns once the yields are
//! exhausted.

use vstd::prelude::*;

use crate::any_object::AnyObject;
use crate::host::Host;
use crate::marshal::{decode, encoded_of, lemma_encode_decode_round_trip};
use crate::types::Value;

verus! {

/// The handle the model's nil stands for: the distinguished empty value the
/// host creates at start-up.
pub open spec fn nil_value() -> Value {
    Value { bits: 0 }
}

/// The nil handle, supplied by convention wherever a call provides no block
/// and wherever a closure asks for an argument it was not given.
pub fn nil() -> (v: Value)
    ensures
        v == nil_value(),
{
    Value { bits: 0 }
}

/// What a boxed closure returns once its yields are exhausted.
#[derive(Clone, Copy, PartialEq, Eq, Structural, Debug)]
pub enum ClosureBody {
    /// Returns this handle, whatever the arguments.
    Fixed(Value),
    /// Returns its argument at this position, or nil when fewer arguments
    /// were given.
    Arg(usize),
}

/// A captured closure, as the box registry stores it.
#[derive(PartialEq, Eq, Debug)]
pub struct ClosureScript {
    /// The handles the closure yields back to its resumer, in order, before
    /// it returns. Only fiber bodies reach a yield; a proc runs straight to
    /// its return value.
    pub yields: Vec<Value>,
    /// The closure's return value once the yields are exhausted.
    pub body: ClosureBody,
}

/// The handle a closure body returns for a given argument sequence.
pub open spec fn body_result(b: ClosureBody, args: Seq<Value>) -> Value {
    match b {
        ClosureBody::Fixed(v) => v,
        ClosureBody::Arg(i) => if i < args.len() {
            args[i as int]
        } else {
            nil_value()
        },
    }
}

/// Runs a closure body on the first `argc` handles of a raw argument buffer.
pub fn eval_body_prefix(b: &ClosureBody, argc: usize, argv: &Vec<Value>) -> (r: Value)
    requires
        argc <= argv@.len(),
    ensures
        r == body_result(*b, argv@.take(argc as int)),
{
    match b {
        ClosureBody::Fixed(v) => *v,
        ClosureBody::Arg(i) => {
            if *i < argc {
                argv[*i]
            } else {
                nil()
            }
        },
    }
}

/// Runs a closure body on already-decoded typed handles: the ergonomic form
/// the constructors wrap every closure into.
pub fn call_closure(b: &ClosureBody, args: &Vec<AnyObject>) -> (r: Value)
    ensures
        r == body_result(*b, encoded_of(args@)),
{
    match b {
        ClosureBody::Fixed(v) => *v,
        ClosureBody::Arg(i) => {
            if *i < args.len() {
                args[*i].value
            } else {
                nil()
            }
        },
    }
}

/// Moves a closure into the box registry and hands back the identifier under
/// which the trampoline will find it: the model's opaque pointer. The box is
/// never removed; its address stays valid for every later invocation.
pub fn box_create(host: &mut Host, closure: ClosureScript) -> (box_ptr: usize)
    requires
        old(host).wf(),
    ensures
        final(host).wf(),
        final(host).boxes@ == old(host).boxes@.push(closure),
        final(host).objects@ == old(host).objects@,
        crate::host::same_but_heap(*old(host), *final(host)),
        box_ptr == old(host).boxes@.len(),
{
    let box_ptr = host.boxes.len();
    host.boxes.push(closure);
    proof {
        crate::host::lemma_registry_growth_preserves_wf(*old(host), *host);
    }
    box_ptr
}

/// The one function ever registered with the runtime's native-callback API.
///
/// The runtime calls it with a receiver, a raw length-tagged argument array,
/// and the box identifier smuggled through the slot the runtime threads
/// through; it recovers the boxed closure, decodes the arguments through the
/// marshaller, invokes the closure, and returns its result untouched.
///
/// Invoking it with an identifier that refers to no live box is outside the
/// boundary contract — the `requires` states that precondition, and since
/// boxes are never removed, every identifier `box_create` ever returned
/// satisfies it.
pub fn trampoline(
    host: &Host,
    receiver: Value,
    argc: usize,
    argv: &Vec<Value>,
    box_ptr: usize,
) -> (r: Value)
    requires
        box_ptr < host.boxes@.len(),
        argc <= argv@.len(),
    ensures
        r == body_result(host.boxes@[box_ptr as int].body, argv@.take(argc as int)),
{
    let args = decode(argc, argv);
    let r = call_closure(&host.boxes[box_ptr].body, &args);
    proof {
        lemma_encode_decode_round_trip(argc as int, argv@);
    }
    let _ = receiver;
    r
}

} // verus!
