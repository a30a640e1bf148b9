//! Guest-side logic of a Python WASI reactor: the byte layout in which a
//! result is handed back to the host, the decisions around host callbacks,
//! and the host-side bookkeeping of the reactor VM.

pub mod memory;
pub mod reactor;
pub mod response;
pub mod rustpy;
pub mod text;
