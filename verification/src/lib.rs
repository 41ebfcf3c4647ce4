//! Safe boundary layer around an opaque, dynamically loaded HTTP contract
//! validation engine, plus the request/response gating logic built on it.
//!
//! The engine itself is an opaque collaborator reached over a C-style
//! interface; this crate owns everything that makes using it safe: the
//! null-terminated buffer and sentinel-terminated array marshaling, the
//! decode-then-free discipline for engine-allocated errors, and the
//! per-request validation state machine.

pub mod binding;
pub mod cerror;
pub mod cstr;
pub mod errors;
pub mod gate;
pub mod headers;
