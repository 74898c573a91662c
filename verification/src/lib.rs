//! Fixed-window admission control for HTTP endpoints.
//!
//! Requests are counted per (route, credential) pair inside a fixed time
//! window. The crate derives an opaque key from the pair, keeps a usage
//! record per key in a concurrent store, and decides Allow or Deny for
//! each request, reporting how many requests remain in the window or when
//! a denied caller may retry.

pub mod engine;
pub mod keys;
pub mod policy;
pub mod store;
