//! Plain data crossing the bridge: opaque value handles, runtime categories,
//! and the recoverable errors the bridge surfaces.

use vstd::prelude::*;

verus! {

/// An opaque, word-sized handle to a value owned by the managed runtime.
///
/// The bridge never looks inside a handle; it only passes the bits across the
/// boundary and asks the runtime for their category. The runtime's collector
/// manages the value's lifetime; the bridge never frees one.
#[derive(Clone, Copy, PartialEq, Eq, Structural, Debug)]
pub struct Value {
    pub bits: usize,
}

/// Identifier of an interned symbol name inside the runtime.
pub type Id = usize;

/// A file descriptor handed to the scheduler as an I/O readiness hint.
pub type RawFd = i32;

/// The runtime-reported category of the object a handle refers to.
///
/// This is the type tag behind every checked downcast: wrapping a handle as a
/// `Proc`, `Fiber` or `Thread` is valid only if the runtime reports the
/// matching category.
#[derive(Clone, Copy, PartialEq, Eq, Structural, Debug)]
pub enum Category {
    Proc,
    Fiber,
    Thread,
    Symbol,
    Fixnum,
    Plain,
}

/// A recoverable error surfaced by the bridge.
#[derive(Clone, Copy, PartialEq, Eq, Structural, Debug)]
pub enum HostError {
    /// A handle claimed to be of the given category but the runtime reports
    /// otherwise. Never silently coerced.
    TypeMismatch(Category),
    /// A coroutine transition the scheduler refuses: resuming a finished
    /// fiber, or yielding with no parent fiber to yield to.
    InvalidCoroutineState,
}

impl HostError {
    /// The fixed descriptive message for this error.
    pub fn message(&self) -> (s: &'static str)
        ensures
            *self == HostError::TypeMismatch(Category::Proc) ==> s@ == "Error converting to Proc"@,
            *self == HostError::TypeMismatch(Category::Fiber) ==> s@ == "Error converting to Fiber"@,
            *self == HostError::TypeMismatch(Category::Thread) ==> s@ == "Error converting to Thread"@,
            *self == HostError::TypeMismatch(Category::Symbol) ==> s@ == "Error converting to Symbol"@,
            *self == HostError::TypeMismatch(Category::Fixnum) ==> s@ == "Error converting to Fixnum"@,
            *self == HostError::TypeMismatch(Category::Plain) ==> s@ == "Error converting to Object"@,
            *self == HostError::InvalidCoroutineState ==> s@ == "invalid coroutine state"@,
    {
        match *self {
            HostError::TypeMismatch(Category::Proc) => "Error converting to Proc",
            HostError::TypeMismatch(Category::Fiber) => "Error converting to Fiber",
            HostError::TypeMismatch(Category::Thread) => "Error converting to Thread",
            HostError::TypeMismatch(Category::Symbol) => "Error converting to Symbol",
            HostError::TypeMismatch(Category::Fixnum) => "Error converting to Fixnum",
            HostError::TypeMismatch(Category::Plain) => "Error converting to Object",
            HostError::InvalidCoroutineState => "invalid coroutine state",
        }
    }
}

} // verus!
