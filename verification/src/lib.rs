//! A typed access layer over the object model of a foreign runtime, which is
//! reached through a table of calls on opaque handles.
//!
//! The runtime itself is outside: it stands behind `call::CallTable`. What
//! the layer does with it is stated over the trace of the calls that were
//! made and of what came back, in `protocol`.

pub mod call;
pub mod class;
pub mod descriptor;
pub mod env;
pub mod error;
pub mod jvalue;
pub mod kind;
pub mod laws;
pub mod object;
pub mod protocol;
pub mod slot;
