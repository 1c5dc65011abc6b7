//! Session logic for an isolated, per-instance Kerberos / GSSAPI
//! secure channel: private credential-cache and configuration
//! management, credential acquisition, multi-round security-context
//! negotiation, message protection gating, and error translation.
//!
//! The native Kerberos and GSSAPI libraries are reached over a foreign
//! interface that an embedding layer owns; this crate holds every
//! decision that surrounds those calls — which call comes next, how its
//! status is classified, which transient resources must be released on
//! each path, and what text each failure carries — and proves the
//! lifecycle laws those decisions obey.

pub mod acquire;
pub mod digits;
pub mod envscope;
pub mod errors;
pub mod session;
pub mod setup;
