//! The typed callable wrappers around raw handles: procs, fibers and green
//! threads. Wrapping an arbitrary handle is a checked downcast — a handle
//! claims a category only if the runtime's type-tag query agrees.

pub mod fiber;
pub mod rproc;
pub mod thread;
