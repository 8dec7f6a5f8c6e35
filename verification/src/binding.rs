//! The primitive layer of the bridge: free functions over the runtime state,
//! one per runtime call primitive, all value-passing through the marshaller's
//! count-plus-buffer shape.

pub mod fiber;
pub mod rproc;
pub mod symbol;
pub mod thread;
