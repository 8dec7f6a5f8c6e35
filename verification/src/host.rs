//! The model of the managed runtime that the bridge talks to.
//!
//! The runtime owns a heap of objects addressed by handles, a registry of
//! opaque closure boxes, a table of interned symbol names, and the global
//! execution lock. A handle's bits index the object heap; the bridge never
//! relies on anything else about them. All bridge primitives are free
//! functions over this state (see the `binding` modules); this module holds
//! the state itself, its well-formedness, and the model-level constructors
//! and queries that stand for values entering the bridge from the runtime.

use vstd::prelude::*;

use crate::closure::{body_result, ClosureBody, ClosureScript};
use crate::types::{Category, HostError, Id, RawFd, Value};

verus! {

/// Where a fiber stands in its life cycle.
#[derive(Clone, Copy, PartialEq, Eq, Structural, Debug)]
pub enum FiberStatus {
    /// Built, never resumed; the first resume's arguments become the body's
    /// arguments.
    Created,
    /// Stopped at a yield, waiting for the next resume.
    Suspended,
    /// Returned; every further resume is refused.
    Done,
}

/// An object on the runtime's heap, as far as the bridge can observe it.
#[derive(Clone, Copy, PartialEq, Eq, Structural, Debug)]
pub enum HostObject {
    /// A callable proc driving the boxed closure `box_id`.
    ProcObj { box_id: usize },
    /// A fiber driving the boxed closure `box_id`. `pos` counts the yields
    /// already delivered; `ret` is the body's return value, fixed at the
    /// first resume, whose arguments become the body's arguments.
    FiberObj { box_id: usize, pos: usize, status: FiberStatus, ret: Value },
    /// The root fiber: the one executing whenever no other fiber is; it
    /// cannot be resumed and has no parent to yield to.
    RootFiber,
    /// A green thread that has been scheduled; `retval` is its eventual
    /// value, the return value of its body.
    ThreadObj { retval: Value },
    /// An interned symbol.
    SymbolObj { id: Id },
    /// A small integer, carried only so values passing through the bridge
    /// are observable.
    FixnumObj { n: i64 },
    /// Any other managed value; the bridge treats it as inert.
    PlainObj,
}

/// The runtime state the bridge rides on.
#[derive(Debug)]
pub struct Host {
    /// The object heap; a handle's bits index it. Index 0 is nil, index 1
    /// the root fiber.
    pub objects: Vec<HostObject>,
    /// The opaque closure boxes, living for the rest of the process once
    /// registered: the collector cannot free foreign memory.
    pub boxes: Vec<ClosureScript>,
    /// Interned symbol names.
    pub symbols: Vec<String>,
    /// For each interned identifier, the bits of the one handle that
    /// materializes it. Symbols are interned: an identifier's handle is
    /// fixed when its name is recorded, so equal identifiers always yield
    /// the same value.
    pub symbol_handles: Vec<usize>,
    /// Whether the global execution lock is held. Managed values may be
    /// created, read or mutated only while it is.
    pub gvl_held: bool,
    /// Whether an asynchronous interruption request (a signal, a shutdown)
    /// is waiting to be delivered to an unlocked computation.
    pub pending_interrupt: bool,
    /// The I/O readiness hints handed to the scheduler, oldest first.
    pub io_waits: Vec<RawFd>,
}

/// The handle of the root fiber.
pub open spec fn root_fiber_value() -> Value {
    Value { bits: 1 }
}

/// Everything of the runtime but the object heap and the box registry is
/// unchanged.
pub open spec fn same_but_heap(a: Host, b: Host) -> bool {
    &&& b.symbols@ == a.symbols@
    &&& b.symbol_handles@ == a.symbol_handles@
    &&& b.gvl_held == a.gvl_held
    &&& b.pending_interrupt == a.pending_interrupt
    &&& b.io_waits@ == a.io_waits@
}

/// Everything of the runtime but the object heap is unchanged.
pub open spec fn same_but_objects(a: Host, b: Host) -> bool {
    &&& b.boxes@ == a.boxes@
    &&& same_but_heap(a, b)
}

impl Host {
    /// The runtime-reported category of the object behind a handle; the
    /// type-tag query every checked downcast goes through. Bits that index
    /// no object report as plain and so match no callable category.
    pub open spec fn spec_category_of(self, v: Value) -> Category {
        if v.bits < self.objects@.len() {
            match self.objects@[v.bits as int] {
                HostObject::ProcObj { .. } => Category::Proc,
                HostObject::FiberObj { .. } => Category::Fiber,
                HostObject::RootFiber => Category::Fiber,
                HostObject::ThreadObj { .. } => Category::Thread,
                HostObject::SymbolObj { .. } => Category::Symbol,
                HostObject::FixnumObj { .. } => Category::Fixnum,
                HostObject::PlainObj => Category::Plain,
            }
        } else {
            Category::Plain
        }
    }

    /// An object's references into the box registry and the symbol table are
    /// in bounds, and a fiber has not stepped past its script.
    pub open spec fn obj_ok(self, o: HostObject) -> bool {
        match o {
            HostObject::ProcObj { box_id } => box_id < self.boxes@.len(),
            HostObject::FiberObj { box_id, pos, status, ret } => {
                &&& box_id < self.boxes@.len()
                &&& pos <= self.boxes@[box_id as int].yields@.len()
            },
            HostObject::SymbolObj { id } => id < self.symbols@.len(),
            _ => true,
        }
    }

    /// The registry index of the boxed closure a proc drives.
    pub open spec fn proc_box_of(self, p: Value) -> int
        recommends
            self.spec_category_of(p) == Category::Proc,
    {
        match self.objects@[p.bits as int] {
            HostObject::ProcObj { box_id } => box_id as int,
            _ => 0,
        }
    }

    /// The handle the runtime's proc-invocation primitive returns for this
    /// proc and this raw argument sequence.
    pub open spec fn proc_call_result(self, p: Value, args: Seq<Value>) -> Value
        recommends
            self.spec_category_of(p) == Category::Proc,
    {
        body_result(self.boxes@[self.proc_box_of(p)].body, args)
    }

    /// The registry index of the boxed closure a fiber drives.
    pub open spec fn fiber_box_of(self, f: Value) -> int {
        match self.objects@[f.bits as int] {
            HostObject::FiberObj { box_id, .. } => box_id as int,
            _ => 0,
        }
    }

    /// A fiber's control state, as the contracts speak of it.
    pub open spec fn fiber_model_of(self, f: Value) -> FiberModel {
        match self.objects@[f.bits as int] {
            HostObject::FiberObj { box_id, pos, status, ret } => FiberModel {
                pos: pos as int,
                status,
                ret,
            },
            _ => FiberModel { pos: 0, status: FiberStatus::Done, ret: Value { bits: 0 } },
        }
    }

    /// The one handle under which an interned identifier is materialized.
    pub open spec fn spec_sym_of(self, id: Id) -> Value
        recommends
            id < self.symbols@.len(),
    {
        Value { bits: self.symbol_handles@[id as int] }
    }

    /// Well-formedness of the runtime state: nil and the root fiber exist,
    /// every heap object is internally consistent, and every interned
    /// identifier has exactly one recorded symbol object on the heap.
    pub open spec fn wf(self) -> bool {
        &&& self.objects@.len() >= 2
        &&& self.objects@[0] is PlainObj
        &&& self.objects@[1] is RootFiber
        &&& forall|i: int|
            0 <= i < self.objects@.len() ==> self.obj_ok(#[trigger] self.objects@[i])
        &&& self.symbol_handles@.len() == self.symbols@.len()
        &&& forall|i: int|
            0 <= i < self.symbol_handles@.len() ==> #[trigger] self.symbol_handles@[i]
                < self.objects@.len() && self.objects@[self.symbol_handles@[i] as int]
                == (HostObject::SymbolObj { id: i as usize })
    }

    /// A fresh runtime: nil and the root fiber on the heap, no boxes, no
    /// symbols, the global lock held, nothing pending.
    pub fn new() -> (h: Host)
        ensures
            h.wf(),
            h.objects@.len() == 2,
            h.boxes@.len() == 0,
            h.symbols@.len() == 0,
            h.gvl_held,
            !h.pending_interrupt,
            h.io_waits@.len() == 0,
    {
        let mut objects: Vec<HostObject> = Vec::new();
        objects.push(HostObject::PlainObj);
        objects.push(HostObject::RootFiber);
        Host {
            objects,
            boxes: Vec::new(),
            symbols: Vec::new(),
            symbol_handles: Vec::new(),
            gvl_held: true,
            pending_interrupt: false,
            io_waits: Vec::new(),
        }
    }

    /// The type-tag query, executably.
    pub fn category_of(&self, v: Value) -> (c: Category)
        ensures
            c == self.spec_category_of(v),
    {
        if v.bits < self.objects.len() {
            match &self.objects[v.bits] {
                HostObject::ProcObj { .. } => Category::Proc,
                HostObject::FiberObj { .. } => Category::Fiber,
                HostObject::RootFiber => Category::Fiber,
                HostObject::ThreadObj { .. } => Category::Thread,
                HostObject::SymbolObj { .. } => Category::Symbol,
                HostObject::FixnumObj { .. } => Category::Fixnum,
                HostObject::PlainObj => Category::Plain,
            }
        } else {
            Category::Plain
        }
    }

    /// A fresh managed value of no particular category: how an arbitrary
    /// runtime-owned object enters the bridge.
    pub fn new_object(&mut self) -> (v: Value)
        requires
            old(self).wf(),
        ensures
            final(self).wf(),
            final(self).objects@ == old(self).objects@.push(HostObject::PlainObj),
            same_but_objects(*old(self), *final(self)),
            v.bits == old(self).objects@.len(),
            final(self).spec_category_of(v) == Category::Plain,
    {
        let bits = self.objects.len();
        self.objects.push(HostObject::PlainObj);
        Value { bits }
    }

    /// A fresh small-integer value.
    pub fn new_fixnum(&mut self, n: i64) -> (v: Value)
        requires
            old(self).wf(),
        ensures
            final(self).wf(),
            final(self).objects@ == old(self).objects@.push(HostObject::FixnumObj { n }),
            same_but_objects(*old(self), *final(self)),
            v.bits == old(self).objects@.len(),
            final(self).spec_category_of(v) == Category::Fixnum,
    {
        let bits = self.objects.len();
        self.objects.push(HostObject::FixnumObj { n });
        Value { bits }
    }

    /// Reads a small integer back out of a handle; the only way the model
    /// lets a test observe a value's content.
    pub fn fixnum_value(&self, v: Value) -> (r: Result<i64, HostError>)
        ensures
            r matches Ok(n) ==> v.bits < self.objects@.len()
                && self.objects@[v.bits as int] == (HostObject::FixnumObj { n }),
            r is Err <==> self.spec_category_of(v) != Category::Fixnum,
            r matches Err(e) ==> e == HostError::TypeMismatch(Category::Fixnum),
    {
        if v.bits < self.objects.len() {
            match &self.objects[v.bits] {
                HostObject::FixnumObj { n } => Ok(*n),
                _ => Err(HostError::TypeMismatch(Category::Fixnum)),
            }
        } else {
            Err(HostError::TypeMismatch(Category::Fixnum))
        }
    }

    /// An asynchronous interruption request arrives (a signal, a shutdown
    /// begun on another thread): recorded here, delivered at the next
    /// unlocked computation that accepts one.
    pub fn raise_interrupt(&mut self)
        ensures
            *final(self) == (Host { pending_interrupt: true, ..*old(self) }),
    {
        self.pending_interrupt = true;
    }

    /// Whether the global lock is observably held.
    pub fn gvl_is_held(&self) -> (b: bool)
        ensures
            b == self.gvl_held,
    {
        self.gvl_held
    }
}

/// A fiber's control state: how many yields it has delivered, where it
/// stands in its life cycle, and the return value its body settled on at the
/// first resume.
pub struct FiberModel {
    pub pos: int,
    pub status: FiberStatus,
    pub ret: Value,
}

/// One resume transition of a fiber whose body has the given yields and
/// return rule: a finished fiber is refused; otherwise the caller blocks
/// until the fiber either reaches its next yield, whose handle comes back,
/// or returns, whose value comes back and finishes the fiber. The first
/// resume's arguments become the body's arguments and so fix its return
/// value; later resumes feed the body's suspended yield expression, which
/// the scripts do not read.
pub open spec fn fiber_resume_step(
    yields: Seq<Value>,
    body: ClosureBody,
    m: FiberModel,
    resume_args: Seq<Value>,
) -> (FiberModel, Result<Value, HostError>) {
    if m.status is Done {
        (m, Err(HostError::InvalidCoroutineState))
    } else {
        let ret = if m.status is Created {
            body_result(body, resume_args)
        } else {
            m.ret
        };
        if m.pos < yields.len() {
            (
                FiberModel { pos: m.pos + 1, status: FiberStatus::Suspended, ret },
                Ok(yields[m.pos]),
            )
        } else {
            (FiberModel { pos: m.pos, status: FiberStatus::Done, ret }, Ok(ret))
        }
    }
}

/// Growing the box registry, with everything else untouched and every old
/// box kept, keeps the runtime well-formed.
pub proof fn lemma_registry_growth_preserves_wf(a: Host, b: Host)
    requires
        a.wf(),
        b.objects@ == a.objects@,
        a.boxes@.len() <= b.boxes@.len(),
        forall|i: int| 0 <= i < a.boxes@.len() ==> b.boxes@[i] == a.boxes@[i],
        b.symbols@ == a.symbols@,
        b.symbol_handles@ == a.symbol_handles@,
    ensures
        b.wf(),
{
    assert forall|i: int| 0 <= i < b.objects@.len() implies b.obj_ok(#[trigger] b.objects@[i]) by {
        assert(a.obj_ok(a.objects@[i]));
    }
}

/// Interning one fresh name — the name, its symbol object and the record of
/// that object's handle all appended together — keeps the runtime
/// well-formed.
pub proof fn lemma_intern_preserves_wf(a: Host, b: Host, name: String)
    requires
        a.wf(),
        b.symbols@ == a.symbols@.push(name),
        b.objects@ == a.objects@.push(HostObject::SymbolObj { id: a.symbols@.len() as usize }),
        b.symbol_handles@ == a.symbol_handles@.push(a.objects@.len() as usize),
        b.boxes@ == a.boxes@,
        a.symbols@.len() <= usize::MAX,
        a.objects@.len() <= usize::MAX,
    ensures
        b.wf(),
{
    assert(b.objects@[0] == a.objects@[0]);
    assert(b.objects@[1] == a.objects@[1]);
    assert forall|k: int| 0 <= k < b.objects@.len() implies b.obj_ok(#[trigger] b.objects@[k]) by {
        if k < a.objects@.len() {
            assert(b.objects@[k] == a.objects@[k]);
            assert(a.obj_ok(a.objects@[k]));
        }
    }
    assert forall|j: int| 0 <= j < b.symbol_handles@.len() implies #[trigger] b.symbol_handles@[j]
        < b.objects@.len() && b.objects@[b.symbol_handles@[j] as int] == (HostObject::SymbolObj {
        id: j as usize,
    }) by {
        if j < a.symbol_handles@.len() {
            assert(b.symbol_handles@[j] == a.symbol_handles@[j]);
            assert(a.symbol_handles@[j] < a.objects@.len());
            assert(b.objects@[a.symbol_handles@[j] as int] == a.objects@[a.symbol_handles@[
                j
            ] as int]);
        } else {
            assert(j == a.symbols@.len());
            assert(b.symbol_handles@[j] == a.objects@.len());
        }
    }
}

/// Replacing one fiber on the heap by a well-formed object, away from nil
/// and the root fiber, keeps the runtime well-formed.
pub proof fn lemma_update_preserves_wf(a: Host, b: Host, i: int, o: HostObject)
    requires
        a.wf(),
        0 <= i < a.objects@.len(),
        a.objects@[i] is FiberObj,
        b.objects@ == a.objects@.update(i, o),
        b.boxes@ == a.boxes@,
        b.symbols@ == a.symbols@,
        b.symbol_handles@ == a.symbol_handles@,
        b.obj_ok(o),
    ensures
        b.wf(),
{
    assert(i != 0 && i != 1);
    assert forall|j: int| 0 <= j < b.objects@.len() implies b.obj_ok(#[trigger] b.objects@[j]) by {
        if j != i {
            assert(b.objects@[j] == a.objects@[j]);
            assert(a.obj_ok(a.objects@[j]));
        }
    }
    assert forall|j: int| 0 <= j < b.symbol_handles@.len() implies #[trigger] b.symbol_handles@[j]
        < b.objects@.len() && b.objects@[b.symbol_handles@[j] as int] == (HostObject::SymbolObj {
        id: j as usize,
    }) by {
        let h = a.symbol_handles@[j] as int;
        assert(a.symbol_handles@[j] < a.objects@.len());
        assert(a.objects@[h] == (HostObject::SymbolObj { id: j as usize }));
        assert(h != i);
        assert(b.objects@[h] == a.objects@[h]);
    }
}

/// Adding one well-formed object to the heap, while the box registry and
/// symbol table at most grow, keeps the runtime well-formed.
pub proof fn lemma_extend_preserves_wf(a: Host, b: Host, o: HostObject)
    requires
        a.wf(),
        b.objects@ == a.objects@.push(o),
        a.boxes@.len() <= b.boxes@.len(),
        forall|i: int| 0 <= i < a.boxes@.len() ==> b.boxes@[i] == a.boxes@[i],
        b.symbols@ == a.symbols@,
        b.symbol_handles@ == a.symbol_handles@,
        b.obj_ok(o),
    ensures
        b.wf(),
{
    assert(b.objects@[0] == a.objects@[0]);
    assert(b.objects@[1] == a.objects@[1]);
    assert forall|i: int| 0 <= i < b.objects@.len() implies b.obj_ok(#[trigger] b.objects@[i]) by {
        if i < a.objects@.len() {
            assert(b.objects@[i] == a.objects@[i]);
            assert(a.obj_ok(a.objects@[i]));
        }
    }
    assert forall|j: int| 0 <= j < b.symbol_handles@.len() implies #[trigger] b.symbol_handles@[j]
        < b.objects@.len() && b.objects@[b.symbol_handles@[j] as int] == (HostObject::SymbolObj {
        id: j as usize,
    }) by {
        assert(a.symbol_handles@[j] < a.objects@.len());
        assert(b.objects@[a.symbol_handles@[j] as int] == a.objects@[a.symbol_handles@[j] as int]);
    }
}

} // verus!
