//! Verified core of a drop-in proxy for a native input library.
//!
//! The proxy is loaded by a host process in place of the genuine library and
//! forwards calls to it. This crate holds the logic worth proving: choosing
//! the lifecycle hook's action for a loader notification, building the
//! genuine library's path from the system-directory query (with null
//! trimming and a fixed fallback), caching the loaded handle in a
//! single-assignment cell, and deciding whether a call is forwarded or
//! answered with the unspecified-failure status. The raw exports, the
//! process-wide static, and the operating-system calls themselves are an
//! unverified shell around this crate.

pub mod forward;
pub mod handle;
pub mod lifecycle;
pub mod path;
