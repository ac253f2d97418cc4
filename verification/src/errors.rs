//! Error taxonomy of the session manager.
//!
//! Input errors (bad encoding, wrong frame type, unknown group id) are kept
//! apart from cryptographic-engine failures so that callers can tell corrupt
//! input from engine-side trouble.

use vstd::prelude::*;

verus! {

/// Every fallible operation of the library reports one of these.
#[derive(Debug)]
pub enum MlsError {
    /// The given group id is not in the session registry.
    GroupNotFound,
    /// A fresh or imported group id collided with one already registered.
    DuplicateGroup,
    /// A field that should hold base64 text did not decode.
    InvalidEncoding,
    /// A frame of the wrong kind was handed to an operation (e.g. a
    /// non-welcome frame to `join_group`).
    WrongMessageType,
    /// An inbound frame kind the pipeline deliberately refuses at top level
    /// (a bare proposal or an external-join proposal).
    UnsupportedMessage,
    /// A key package failed deserialization or protocol validation.
    InvalidKeyPackage,
    /// The client or session was restored from a snapshot and has no live
    /// key material, so it cannot sign, encrypt, decrypt or change
    /// membership.
    NotLive,
    /// The epoch counter cannot advance past the largest representable value.
    EpochOverflow,
    /// The cryptographic engine reported a failure; the text is its message.
    Engine(String),
}

impl MlsError {
    /// A human-readable message for the host-facing result envelope; an
    /// engine failure passes the engine's own message through.
    pub fn as_text(&self) -> (r: String)
        ensures
            self matches MlsError::Engine(m) ==> r@ == m@,
    {
        match self {
            MlsError::GroupNotFound => String::from_str("Group not found"),
            MlsError::DuplicateGroup => String::from_str("Group id already registered"),
            MlsError::InvalidEncoding => String::from_str("Invalid base64 input"),
            MlsError::WrongMessageType => String::from_str("Message is not a Welcome"),
            MlsError::UnsupportedMessage => String::from_str("Unsupported inbound message kind"),
            MlsError::InvalidKeyPackage => String::from_str("Invalid KeyPackage"),
            MlsError::NotLive => String::from_str("No live cryptographic state"),
            MlsError::EpochOverflow => String::from_str("Epoch counter exhausted"),
            MlsError::Engine(msg) => msg.clone(),
        }
    }
}

} // verus!
