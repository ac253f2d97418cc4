//! Export/import subsystem: a point-in-time, read-only snapshot of the
//! identity and every session, and its reconstruction.
//!
//! Export serializes each group's membership-tree view, not its ratchet
//! secrets, so an imported session regains the group's structural state —
//! id, wire id, epoch, membership tree — but is not live: this is the
//! documented persistence limitation of the snapshot format. A corrupt
//! entry aborts the whole import (atomic, abort-all policy).

use vstd::prelude::*;

use crate::engine::b64_decode;
use crate::engine::b64_encode;
use crate::engine::b64_of;
use crate::engine::engine_export_tree;
use crate::engine::new_crypto_provider;
use crate::errors::MlsError;
use crate::identity::Identity;
use crate::registry::ids_distinct;
use crate::registry::lemma_push_session;
use crate::registry::SessionRegistry;
use crate::client::MlsClient;
use crate::session::GroupSession;
use crate::session::SessionModel;
use crate::session::SessionState;

verus! {

/// One exported session: the local id, the base64 wire-level group id, the
/// base64 serialized membership tree, and the epoch the session was at.
pub struct ExportedGroup {
    pub id: String,
    pub mls_group_id: String,
    pub state: String,
    pub epoch: u64,
}

/// A portable snapshot: the base64 credential bytes, the base64 public half
/// of the signing key, and one entry per session.
pub struct ExportedState {
    pub credential: String,
    pub signature_key: String,
    pub groups: Vec<ExportedGroup>,
}

/// How one exported entry relates to the session it was produced from.
pub open spec fn entry_encodes(g: ExportedGroup, m: SessionModel) -> bool {
    &&& g.id@ == m.id
    &&& g.epoch == m.epoch
    &&& g.mls_group_id@ == b64_of(m.wire_id)
    &&& match m.tree {
        Some(t) => g.state@ == b64_of(t),
        None => exists|t: Seq<u8>| g.state@ == b64_of(t),
    }
}

/// How one reconstructed session relates to the exported entry it was read
/// from: every base64 field decoded to its unique preimage.
pub open spec fn entry_decodes(g: ExportedGroup, m: SessionModel) -> bool {
    &&& m.id == g.id@
    &&& m.epoch == g.epoch
    &&& m.tree is Some
    &&& b64_of(m.tree->0) == g.state@
    &&& (forall|b: Seq<u8>| b64_of(b) == g.state@ ==> b == m.tree->0)
    &&& b64_of(m.wire_id) == g.mls_group_id@
    &&& (forall|b: Seq<u8>| b64_of(b) == g.mls_group_id@ ==> b == m.wire_id)
}

/// Every base64 field of the snapshot is a well-formed encoding.
pub open spec fn snapshot_decodable(s: ExportedState) -> bool {
    &&& (exists|b: Seq<u8>| b64_of(b) == s.credential@)
    &&& (exists|b: Seq<u8>| b64_of(b) == s.signature_key@)
    &&& (forall|i: int|
        0 <= i < s.groups@.len() ==> (exists|b: Seq<u8>|
            b64_of(b) == (#[trigger] s.groups@[i]).state@))
    &&& (forall|i: int|
        0 <= i < s.groups@.len() ==> (exists|b: Seq<u8>|
            b64_of(b) == (#[trigger] s.groups@[i]).mls_group_id@))
}

/// The snapshot's group ids are pairwise distinct.
pub open spec fn snapshot_ids_distinct(s: ExportedState) -> bool {
    forall|i: int, j: int|
        0 <= i < j < s.groups@.len() ==> (#[trigger] s.groups@[i]).id@ != (
        #[trigger] s.groups@[j]).id@
}

/// Law: importing a snapshot produced by export reconstructs a registry
/// whose group ids and epochs match the exported registry exactly, in
/// order, whose wire-level group ids are unchanged, and whose stored
/// membership trees are exactly the trees the snapshot carries.
pub proof fn lemma_snapshot_round_trip(
    before: Seq<SessionModel>,
    groups: Seq<ExportedGroup>,
    after: Seq<SessionModel>,
)
    requires
        groups.len() == before.len(),
        forall|i: int| 0 <= i < groups.len() ==> entry_encodes(#[trigger] groups[i], before[i]),
        after.len() == groups.len(),
        forall|i: int| 0 <= i < groups.len() ==> entry_decodes(#[trigger] groups[i], after[i]),
    ensures
        after.len() == before.len(),
        forall|i: int| 0 <= i < before.len() ==> (#[trigger] after[i]).id == before[i].id,
        forall|i: int| 0 <= i < before.len() ==> (#[trigger] after[i]).epoch == before[i].epoch,
        forall|i: int| 0 <= i < before.len() ==> (#[trigger] after[i]).wire_id == before[i].wire_id,
        forall|i: int|
            0 <= i < before.len() && before[i].tree is Some ==> (#[trigger] after[i]).tree
                == before[i].tree,
        forall|i: int|
            0 <= i < before.len() ==> b64_of((#[trigger] after[i]).tree->0) == groups[i].state@,
{
    assert forall|i: int|
        0 <= i < before.len() implies (#[trigger] after[i]).id == before[i].id && after[i].epoch
        == before[i].epoch by {
        assert(entry_encodes(groups[i], before[i]));
        assert(entry_decodes(groups[i], after[i]));
    }
    assert forall|i: int|
        0 <= i < before.len() implies (#[trigger] after[i]).wire_id == before[i].wire_id by {
        assert(entry_encodes(groups[i], before[i]));
        assert(entry_decodes(groups[i], after[i]));
        assert(b64_of(before[i].wire_id) == groups[i].mls_group_id@);
    }
    assert forall|i: int|
        0 <= i < before.len() && before[i].tree is Some implies (#[trigger] after[i]).tree
        == before[i].tree by {
        assert(entry_encodes(groups[i], before[i]));
        assert(entry_decodes(groups[i], after[i]));
        assert(b64_of(before[i].tree->0) == groups[i].state@);
    }
}

impl MlsClient {
    /// Serializes the identity and every session into a portable snapshot,
    /// without mutating either: the credential bytes, the public signing
    /// key, and per group its id, wire id, epoch and membership-tree view.
    /// Only a live session's tree export can fail (an engine failure); a
    /// client whose sessions are all restored always exports.
    #[verifier::loop_isolation(false)]
    pub fn export_state(&self) -> (r: Result<ExportedState, MlsError>)
        ensures
            (forall|i: int|
                0 <= i < self.models().len() ==> !(#[trigger] self.models()[i]).is_live())
                ==> r is Ok,
            match r {
                Ok(s) => {
                    &&& s.credential@ == b64_of(self.identity.credential@)
                    &&& s.signature_key@ == b64_of(self.identity.public_key@)
                    &&& s.groups@.len() == self.models().len()
                    &&& (forall|i: int|
                        0 <= i < s.groups@.len() ==> entry_encodes(
                            #[trigger] s.groups@[i],
                            self.models()[i],
                        ))
                },
                Err(e) => e is Engine,
            },
    {
        let credential = b64_encode(&self.identity.credential);
        let signature_key = b64_encode(&self.identity.public_key);
        let mut groups: Vec<ExportedGroup> = Vec::new();
        let n = self.registry.sessions.len();
        let mut i: usize = 0;
        while i < n
            invariant
                i <= n,
                groups@.len() == i as int,
                forall|j: int|
                    0 <= j < i ==> entry_encodes(#[trigger] groups@[j], self.models()[j]),
            decreases n - i,
        {
            let session = &self.registry.sessions[i];
            let tree = match &session.state {
                SessionState::Live(group) => match engine_export_tree(group) {
                    Ok(t) => t,
                    Err(msg) => {
                        proof {
                            assert(self.models()[i as int].is_live());
                        }
                        return Err(MlsError::Engine(msg));
                    },
                },
                SessionState::Restored(t) => t.clone(),
            };
            groups.push(
                ExportedGroup {
                    id: session.id.clone(),
                    mls_group_id: b64_encode(&session.wire_id),
                    state: b64_encode(&tree),
                    epoch: session.epoch,
                },
            );
            i = i + 1;
        }
        Ok(ExportedState { credential, signature_key, groups })
    }

    /// Reconstructs a client from a snapshot. Every base64 field is decoded
    /// before anything is built, and the call succeeds exactly when every
    /// field decodes and the snapshot's group ids are distinct; one corrupt
    /// entry aborts the whole import. The reconstructed sessions carry the
    /// snapshot's ids, epochs and membership trees but no live ratchet
    /// state, and the identity carries no private key material.
    #[verifier::loop_isolation(false)]
    pub fn import_state(snapshot: &ExportedState) -> (r: Result<MlsClient, MlsError>)
        ensures
            r is Ok <==> snapshot_decodable(*snapshot) && snapshot_ids_distinct(*snapshot),
            match r {
                Ok(c) => {
                    &&& c.wf()
                    &&& !c.identity.is_live()
                    &&& b64_of(c.identity.credential@) == snapshot.credential@
                    &&& (forall|b: Seq<u8>|
                        b64_of(b) == snapshot.credential@ ==> b == c.identity.credential@)
                    &&& b64_of(c.identity.public_key@) == snapshot.signature_key@
                    &&& (forall|b: Seq<u8>|
                        b64_of(b) == snapshot.signature_key@ ==> b == c.identity.public_key@)
                    &&& c.models().len() == snapshot.groups@.len()
                    &&& (forall|i: int|
                        0 <= i < snapshot.groups@.len() ==> entry_decodes(
                            #[trigger] snapshot.groups@[i],
                            c.models()[i],
                        ))
                },
                Err(e) => e is InvalidEncoding || e is DuplicateGroup,
            },
    {
        let credential = match b64_decode(snapshot.credential.as_str()) {
            Ok(b) => b,
            Err(_) => {
                return Err(MlsError::InvalidEncoding);
            },
        };
        let public_key = match b64_decode(snapshot.signature_key.as_str()) {
            Ok(b) => b,
            Err(_) => {
                return Err(MlsError::InvalidEncoding);
            },
        };
        let mut registry = SessionRegistry::new();
        let n = snapshot.groups.len();
        let mut i: usize = 0;
        while i < n
            invariant
                i <= n,
                registry.models().len() == i as int,
                ids_distinct(registry.models()),
                forall|j: int|
                    0 <= j < i ==> entry_decodes(
                        #[trigger] snapshot.groups@[j],
                        registry.models()[j],
                    ),
                forall|j: int|
                    0 <= j < i ==> (#[trigger] registry.models()[j]).id == snapshot.groups@[j].id@,
            decreases n - i,
        {
            let entry = &snapshot.groups[i];
            let tree = match b64_decode(entry.state.as_str()) {
                Ok(b) => b,
                Err(_) => {
                    proof {
                        if snapshot_decodable(*snapshot) {
                            let b = choose|b: Seq<u8>|
                                b64_of(b) == snapshot.groups@[i as int].state@;
                            assert(false);
                        }
                    }
                    return Err(MlsError::InvalidEncoding);
                },
            };
            let wire_id = match b64_decode(entry.mls_group_id.as_str()) {
                Ok(b) => b,
                Err(_) => {
                    proof {
                        if snapshot_decodable(*snapshot) {
                            let b = choose|b: Seq<u8>|
                                b64_of(b) == snapshot.groups@[i as int].mls_group_id@;
                            assert(false);
                        }
                    }
                    return Err(MlsError::InvalidEncoding);
                },
            };
            match registry.find(&entry.id) {
                Some(k) => {
                    proof {
                        assert(registry.models()[k as int].id == snapshot.groups@[k as int].id@);
                        assert(snapshot.groups@[k as int].id@ == snapshot.groups@[i as int].id@);
                        assert(!snapshot_ids_distinct(*snapshot));
                    }
                    return Err(MlsError::DuplicateGroup);
                },
                None => {},
            }
            let session = GroupSession {
                id: entry.id.clone(),
                wire_id,
                epoch: entry.epoch,
                state: SessionState::Restored(tree),
            };
            proof {
                lemma_push_session(registry.models(), session.model());
            }
            registry.insert(session);
            i = i + 1;
        }
        Ok(
            MlsClient {
                crypto: new_crypto_provider(),
                identity: Identity { credential, public_key, signer: None },
                registry,
            },
        )
    }
}

} // verus!
