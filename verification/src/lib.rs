//! A call-level database client binding, modelled and verified.
//!
//! The library's core is the handle-lifecycle and error-propagation
//! protocol of a native call-level database interface: opaque handles
//! (environment, error, server, service context, session, statement)
//! are allocated, linked into a parent/child hierarchy, used for calls,
//! and released in strict reverse dependency order, while every native
//! status code is translated into a structured error value.
//!
//! The native call surface is modelled by an executable, call-recording
//! native layer ([`ffi::Oci`]) whose scripted status codes let every
//! success and failure path be exercised and proved. The real shared
//! library is reached by an unverified shell around this crate.

use vstd::prelude::*;

pub mod conn;
pub mod env;
pub mod ffi;
pub mod stmt;

verus! {

} // verus!
