//! The argument marshaller.
//!
//! Calls into the runtime pass a count plus a contiguous buffer of raw
//! handles; native closures want an ordered sequence of typed handles. This
//! module adapts the shape in both directions. No value conversion happens
//! here: each handle crosses untouched.

use vstd::prelude::*;

use crate::any_object::AnyObject;
use crate::types::Value;

verus! {

/// The raw buffer a sequence of typed handles encodes to.
pub open spec fn encoded_of(args: Seq<AnyObject>) -> Seq<Value> {
    args.map(|i: int, a: AnyObject| a.value)
}

/// The sequence of typed handles read from the first `argc` entries of a
/// raw buffer.
pub open spec fn decoded_of(argc: int, buf: Seq<Value>) -> Seq<AnyObject>
    recommends
        0 <= argc <= buf.len(),
{
    buf.take(argc).map(|i: int, v: Value| AnyObject { value: v })
}

/// Marshals typed handles into the raw form every runtime call primitive
/// takes: an explicit count and a contiguous buffer. The buffer borrows
/// nothing and owns plain handle words, so it stays valid for the duration
/// of the call it backs.
pub fn encode(args: &Vec<AnyObject>) -> (r: (usize, Vec<Value>))
    ensures
        r.0 == args@.len(),
        r.1@ == encoded_of(args@),
{
    let mut buf: Vec<Value> = Vec::new();
    let mut i: usize = 0;
    while i < args.len()
        invariant
            i <= args@.len(),
            buf@.len() == i,
            forall|j: int| 0 <= j < i ==> buf@[j] == args@[j].value,
        decreases args@.len() - i,
    {
        buf.push(args[i].value);
        i += 1;
    }
    proof {
        assert(buf@ =~= encoded_of(args@));
    }
    (args.len(), buf)
}

/// Reads exactly `argc` handles from the front of `argv` and wraps each as a
/// typed handle, copying nothing but the handle words themselves. The count
/// is the caller's promise about how far the buffer is valid, so reading is
/// fenced on it.
pub fn decode(argc: usize, argv: &Vec<Value>) -> (r: Vec<AnyObject>)
    requires
        argc <= argv@.len(),
    ensures
        r@ == decoded_of(argc as int, argv@),
{
    let mut out: Vec<AnyObject> = Vec::new();
    let mut i: usize = 0;
    while i < argc
        invariant
            argc <= argv@.len(),
            i <= argc,
            out@.len() == i,
            forall|j: int| 0 <= j < i ==> out@[j] == (AnyObject { value: argv@[j] }),
        decreases argc - i,
    {
        out.push(AnyObject { value: argv[i] });
        i += 1;
    }
    proof {
        assert(out@ =~= decoded_of(argc as int, argv@));
    }
    out
}

/// Marshalling round-trip: decoding an encoded argument sequence gives back
/// handles to the same underlying values, in the same order.
pub proof fn lemma_decode_encode_round_trip(args: Seq<AnyObject>)
    ensures
        decoded_of(args.len() as int, encoded_of(args)) == args,
{
    assert(decoded_of(args.len() as int, encoded_of(args)) =~= args);
}

/// The reverse trip: re-encoding the handles decoded from a raw buffer
/// reproduces exactly the part of the buffer the count covered.
pub proof fn lemma_encode_decode_round_trip(argc: int, buf: Seq<Value>)
    requires
        0 <= argc <= buf.len(),
    ensures
        encoded_of(decoded_of(argc, buf)) == buf.take(argc),
{
    assert(encoded_of(decoded_of(argc, buf)) =~= buf.take(argc));
}

} // verus!
