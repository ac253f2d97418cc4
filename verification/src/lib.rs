//! Client-side session manager for an MLS-style secure group-messaging
//! protocol.
//!
//! The library owns a client's identity, a registry of per-group sessions,
//! and the inbound message-processing pipeline. All cryptographic work is
//! delegated to the OpenMLS engine behind a small set of trusted wrappers;
//! everything above those wrappers — epoch bookkeeping, registry invariants,
//! dispatch over inbound message kinds, snapshot export and import — is
//! verified.

use vstd::prelude::*;

pub mod client;
pub mod engine;
pub mod errors;
pub mod identity;
pub mod registry;
pub mod session;
pub mod snapshot;

verus! {

/// Uniform result envelope handed across the host boundary: `ok` agrees with
/// which of `value` and `error` is present, and the two never coexist.
pub struct JsResult<T> {
    pub ok: bool,
    pub value: Option<T>,
    pub error: Option<String>,
}

impl<T> JsResult<T> {
    /// The envelope is well-formed: success carries a value and no error,
    /// failure carries an error and no value.
    pub open spec fn wf(self) -> bool {
        if self.ok {
            self.value is Some && self.error is None
        } else {
            self.value is None && self.error is Some
        }
    }

    pub fn ok(value: T) -> (r: JsResult<T>)
        ensures
            r.wf(),
            r.ok,
            r.value == Some(value),
    {
        JsResult { ok: true, value: Some(value), error: None }
    }

    pub fn err(error: String) -> (r: JsResult<T>)
        ensures
            r.wf(),
            !r.ok,
            r.error == Some(error),
    {
        JsResult { ok: false, value: None, error: Some(error) }
    }
}

} // verus!
