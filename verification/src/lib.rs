//! A safety envelope around an embedding host runtime's garbage-collected heap:
//! scope-bounded handles, a two-phase construction protocol, bounds-checked call
//! frames and the pending-exception protocol, with every operation verified.

pub mod raw;
pub mod host;
pub mod mem;
pub mod scope;
pub mod vm;
pub mod js;
pub mod error;
pub mod call;
