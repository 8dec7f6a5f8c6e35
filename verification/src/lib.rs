//! A closure bridge for an embedded managed runtime.
//!
//! The runtime owns every value behind opaque word-sized handles, schedules
//! cooperative fibers and preemptible green threads, and serializes managed
//! execution behind a single global lock. This crate models that boundary:
//! the argument marshaller, the type-erased closure box and its trampoline,
//! the callable constructors (procs, fibers, threads), and the release /
//! reacquire protocol for the global lock. Every transition of the model is
//! stated in a contract and verified.

pub mod any_object;
pub mod binding;
pub mod class;
pub mod closure;
pub mod host;
pub mod marshal;
pub mod types;

pub use any_object::AnyObject;
pub use class::fiber::Fiber;
pub use class::rproc::Proc;
pub use class::thread::Thread;
pub use closure::{ClosureBody, ClosureScript};
pub use host::Host;
pub use types::{Category, HostError, Value};
