//! A safe bridge between a runtime that only knows one fixed callback shape and
//! arbitrary, typed host closures.
//!
//! The crate holds the verified core of that bridge: the value kinds and their
//! wire codes, typed values and their wire form, function signatures, the
//! bounded registry that gives every registered closure a collision-free token,
//! and the dispatch path that the runtime's single callback runs through.
//! Nothing here touches foreign memory: handles, locks and the process-wide
//! registry instance belong to the embedding around this crate.

pub mod error;
pub mod executor;
pub mod func;
pub mod func_type;
pub mod kind_lists;
pub mod registry;
pub mod trampoline;
pub mod val_type;
pub mod value;

pub use error::{FuncError, WasmEdgeError};
pub use executor::HostExecutor;
pub use func::{Binding, Engine, FuncRef, Function};
pub use func_type::{FuncType, Signature};
pub use registry::{BoxedFn, HostRegistry};
pub use val_type::ValType;
pub use value::{RawValue, WasmValue};
