//! Symbol primitives: just enough of the runtime's interned names to pass
//! symbols through the bridge and read them back.
//!
//! Symbols are interned. A name is recorded at most once, its symbol object
//! is materialized on the heap at that moment, and the object's handle is
//! fixed for the rest of the process: equal names give equal identifiers,
//! and equal identifiers always yield the same value.

use vstd::prelude::*;

use crate::host::{lemma_intern_preserves_wf, Host, HostObject};
use crate::types::{Category, HostError, Id, Value};

verus! {

/// Records a symbol name and returns its identifier. A name already
/// recorded keeps its identifier and nothing changes; a fresh name is
/// appended together with its one symbol object, whose handle is fixed from
/// then on.
pub fn intern(host: &mut Host, name: String) -> (id: Id)
    requires
        old(host).wf(),
    ensures
        final(host).wf(),
        id < final(host).symbols@.len(),
        final(host).symbols@[id as int]@ == name@,
        forall|j: int| 0 <= j < id ==> final(host).symbols@[j]@ != name@,
        (exists|j: int|
            0 <= j < old(host).symbols@.len() && #[trigger] old(host).symbols@[j]@ == name@)
            ==> *final(host) == *old(host),
        (forall|j: int|
            0 <= j < old(host).symbols@.len() ==> #[trigger] old(host).symbols@[j]@ != name@) ==> {
            &&& id == old(host).symbols@.len()
            &&& final(host).symbols@ == old(host).symbols@.push(name)
            &&& final(host).objects@ == old(host).objects@.push(HostObject::SymbolObj { id })
            &&& final(host).symbol_handles@ == old(host).symbol_handles@.push(
                old(host).objects@.len() as usize,
            )
            &&& final(host).boxes@ == old(host).boxes@
            &&& final(host).gvl_held == old(host).gvl_held
            &&& final(host).pending_interrupt == old(host).pending_interrupt
            &&& final(host).io_waits@ == old(host).io_waits@
        },
{
    let mut i: usize = 0;
    while i < host.symbols.len()
        invariant
            *host == *old(host),
            host.wf(),
            i <= host.symbols@.len(),
            forall|j: int| 0 <= j < i ==> host.symbols@[j]@ != name@,
        decreases host.symbols@.len() - i,
    {
        if host.symbols[i] == name {
            return i;
        }
        i += 1;
    }
    let ghost pre = *host;
    let id = host.symbols.len();
    let handle_bits = host.objects.len();
    host.symbols.push(name);
    host.objects.push(HostObject::SymbolObj { id });
    host.symbol_handles.push(handle_bits);
    proof {
        lemma_intern_preserves_wf(pre, *host, host.symbols@[id as int]);
    }
    id
}

/// Materializes the symbol value for an interned identifier: the one handle
/// recorded when the name was interned. Equal identifiers always yield the
/// same value.
pub fn id_to_sym(host: &Host, id: Id) -> (v: Value)
    requires
        host.wf(),
        id < host.symbols@.len(),
    ensures
        v == host.spec_sym_of(id),
        host.spec_category_of(v) == Category::Symbol,
        host.objects@[v.bits as int] == (HostObject::SymbolObj { id }),
{
    proof {
        assert(host.symbol_handles@[id as int] < host.objects@.len());
    }
    Value { bits: host.symbol_handles[id] }
}

/// Symbols are interned: as long as the table of recorded handles stands,
/// whatever else the runtime does, the same identifier materializes as the
/// same value.
pub proof fn lemma_sym_interned(a: Host, b: Host, id: Id)
    requires
        id < a.symbols@.len(),
        b.symbol_handles@ == a.symbol_handles@,
    ensures
        b.spec_sym_of(id) == a.spec_sym_of(id),
{
}

/// The identifier behind a symbol value; a handle of another category is
/// refused.
pub fn sym_to_id(host: &Host, sym: Value) -> (r: Result<Id, HostError>)
    ensures
        r is Ok <==> host.spec_category_of(sym) == Category::Symbol,
        r matches Ok(id) ==> host.objects@[sym.bits as int] == (HostObject::SymbolObj { id }),
        r matches Err(e) ==> e == HostError::TypeMismatch(Category::Symbol),
{
    if sym.bits < host.objects.len() {
        match host.objects[sym.bits] {
            HostObject::SymbolObj { id } => Ok(id),
            _ => Err(HostError::TypeMismatch(Category::Symbol)),
        }
    } else {
        Err(HostError::TypeMismatch(Category::Symbol))
    }
}

/// The interned name behind an identifier.
pub fn id_to_name<'a>(host: &'a Host, id: Id) -> (r: &'a String)
    requires
        host.wf(),
        id < host.symbols@.len(),
    ensures
        r@ == host.symbols@[id as int]@,
{
    &host.symbols[id]
}

/// The name a symbol value stands for, borrowed from the runtime's table.
pub fn value_to_str<'a>(host: &'a Host, value: Value) -> (r: Result<&'a String, HostError>)
    requires
        host.wf(),
    ensures
        r is Ok <==> host.spec_category_of(value) == Category::Symbol,
        r matches Ok(name) ==> exists|id: Id|
            host.objects@[value.bits as int] == (HostObject::SymbolObj { id }) && id
                < host.symbols@.len() && name@ == host.symbols@[id as int]@,
        r matches Err(e) ==> e == HostError::TypeMismatch(Category::Symbol),
{
    match sym_to_id(host, value) {
        Ok(id) => {
            proof {
                assert(host.obj_ok(host.objects@[value.bits as int]));
            }
            Ok(id_to_name(host, id))
        },
        Err(e) => Err(e),
    }
}

/// The name a symbol value stands for, as an owned string.
pub fn value_to_string(host: &Host, value: Value) -> (r: Result<String, HostError>)
    requires
        host.wf(),
    ensures
        r is Ok <==> host.spec_category_of(value) == Category::Symbol,
        r matches Ok(name) ==> exists|id: Id|
            host.objects@[value.bits as int] == (HostObject::SymbolObj { id }) && id
                < host.symbols@.len() && name@ == host.symbols@[id as int]@,
        r matches Err(e) ==> e == HostError::TypeMismatch(Category::Symbol),
{
    match value_to_str(host, value) {
        Ok(name) => Ok(name.clone()),
        Err(e) => Err(e),
    }
}

} // verus!
