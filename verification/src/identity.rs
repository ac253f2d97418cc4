//! The client's long-term identity: credential bytes and signing key pair.
//!
//! An identity created by `MlsClient::new` is live (it holds the signing
//! keys); one reconstructed from a snapshot only carries the credential and
//! the public key, since a snapshot never contains private key material.

use vstd::prelude::*;

use openmls_basic_credential::SignatureKeyPair;

verus! {

pub struct Identity {
    /// The user-visible identifier bytes the credential was built from.
    pub credential: Vec<u8>,
    /// The public half of the signing key.
    pub public_key: Vec<u8>,
    /// The signing key pair; absent on an identity restored from a snapshot.
    pub signer: Option<SignatureKeyPair>,
}

impl Identity {
    /// Whether the identity can sign, i.e. was not restored from a snapshot.
    pub open spec fn is_live(self) -> bool {
        self.signer is Some
    }
}

} // verus!
