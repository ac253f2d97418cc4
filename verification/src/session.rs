//! Per-group session state.
//!
//! A session pairs a locally chosen group id with the protocol-level (wire)
//! group id, the epoch counter the library maintains, and the cryptographic
//! state. The epoch is the library's own bookkeeping: it starts at 0 for a
//! created group, is taken from the engine once at join time, and afterwards
//! advances by exactly one for every merged commit — so within a session it
//! only ever increases.

use vstd::prelude::*;

use openmls::prelude::MlsGroup;

verus! {

/// The cryptographic side of a session.
pub enum SessionState {
    /// A live engine-managed group: full ratchet state, able to encrypt,
    /// decrypt and change membership.
    Live(MlsGroup),
    /// A session restored from a snapshot: only the serialized
    /// membership-tree view survived, so protocol operations are refused
    /// while the structural state stays inspectable and exportable.
    Restored(Vec<u8>),
}

/// The mathematical view of one session: everything the contracts speak of.
pub ghost struct SessionModel {
    /// The locally chosen group id, as text.
    pub id: Seq<char>,
    /// The protocol-level group id bytes.
    pub wire_id: Seq<u8>,
    /// The library-maintained epoch counter.
    pub epoch: u64,
    /// `None` for a live session; for a restored one, the membership-tree
    /// bytes carried over from the snapshot.
    pub tree: Option<Seq<u8>>,
}

/// One group the client has created, joined, or restored from a snapshot.
pub struct GroupSession {
    pub id: String,
    pub wire_id: Vec<u8>,
    pub epoch: u64,
    pub state: SessionState,
}

impl GroupSession {
    pub open spec fn model(self) -> SessionModel {
        SessionModel {
            id: self.id@,
            wire_id: self.wire_id@,
            epoch: self.epoch,
            tree: match self.state {
                SessionState::Live(_) => None,
                SessionState::Restored(t) => Some(t@),
            },
        }
    }

    /// Whether the session holds live engine state.
    pub open spec fn is_live(self) -> bool {
        self.state is Live
    }
}

impl SessionModel {
    pub open spec fn is_live(self) -> bool {
        self.tree is None
    }
}

} // verus!
