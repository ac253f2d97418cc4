//! The client façade: one value owning the identity, the crypto provider
//! and the session registry, with every protocol operation as a method.
//!
//! Contracts are stated over the registry's sequence of session models
//! (`crate::registry`): which group ids exist, each group's epoch, and
//! whether a session is live. A failing operation leaves that model exactly
//! as it was — atomicity per call.

use vstd::prelude::*;
use vstd::string::StringSliceAdditionalSpecFns;
use vstd::utf8::encode_utf8;

use openmls::prelude::KeyPackage;
use openmls::prelude::MlsGroup;
use openmls_rust_crypto::OpenMlsRustCrypto;

use crate::engine::b64_decode;
use crate::engine::b64_encode;
use crate::engine::b64_of;
use crate::engine::build_key_package;
use crate::engine::engine_add_members;
use crate::engine::engine_create_group;
use crate::engine::engine_encrypt;
use crate::engine::engine_epoch;
use crate::engine::engine_group_id;
use crate::engine::engine_join;
use crate::engine::engine_merge_pending;
use crate::engine::engine_merge_staged;
use crate::engine::engine_process;
use crate::engine::fresh_group_id;
use crate::engine::generate_signature_keys;
use crate::engine::key_package_ref;
use crate::engine::kp_ref_of;
use crate::engine::message_into_protocol;
use crate::engine::message_into_welcome;
use crate::engine::new_crypto_provider;
use crate::engine::parse_frame;
use crate::engine::signature_public_key;
use crate::engine::store_signature_keys;
use crate::engine::validate_key_package;
use crate::engine::InboundContent;
use crate::errors::MlsError;
use crate::identity::Identity;
use crate::registry::contains_id;
use crate::registry::epoch_at;
use crate::registry::index_of_id;
use crate::registry::lemma_id_index;
use crate::registry::lemma_push_session;
use crate::registry::lemma_update_session;
use crate::registry::session_at;
use crate::registry::SessionRegistry;
use crate::session::GroupSession;
use crate::session::SessionModel;
use crate::session::SessionState;

verus! {

/// One issued key package: its content-derived reference and its serialized
/// bundle, both base64 text.
pub struct KeyPackageData {
    pub id: String,
    pub data: String,
}

/// The entry carries the base64 of some serialized bundle, and its id is
/// the base64 of that bundle's content-derived reference.
pub open spec fn issued_package_encoded(entry: KeyPackageData) -> bool {
    exists|d: Seq<u8>| entry.data@ == b64_of(d) && entry.id@ == b64_of(kp_ref_of(d))
}

/// The result of creating or joining a group: the locally chosen id and the
/// base64 of the protocol-level (wire) group id.
pub struct GroupCreatedData {
    pub group_id: String,
    pub mls_group_id: String,
}

/// One welcome to hand to one new member: the base64 of the recipient's
/// key-package reference, and the base64 welcome frame.
pub struct WelcomeData {
    pub key_package_ref: String,
    pub welcome: String,
}

/// The artifacts of a membership change: the commit frame for existing
/// members and one welcome entry per new member.
pub struct AddMembersResult {
    pub commit: String,
    pub welcomes: Vec<WelcomeData>,
}

/// One encrypted application message and the epoch it was produced under.
pub struct EncryptedMessage {
    pub ciphertext: String,
    pub epoch: u64,
}

/// One decrypted application message. The payload is opaque bytes; text
/// decoding is the host boundary's concern.
pub struct DecryptedMessage {
    pub plaintext: Vec<u8>,
    pub sender_index: u32,
}

/// What processing one inbound frame produced.
pub enum InboundOutcome {
    /// A decrypted application message.
    Plaintext(DecryptedMessage),
    /// A commit was merged; the group's epoch advanced by one.
    CommitApplied,
}

/// The client: exclusive owner of its identity, crypto provider and session
/// registry.
pub struct MlsClient {
    pub crypto: OpenMlsRustCrypto,
    pub identity: Identity,
    pub registry: SessionRegistry,
}

impl MlsClient {
    /// The registry's session models, in registration order.
    pub open spec fn models(self) -> Seq<SessionModel> {
        self.registry.models()
    }

    pub open spec fn wf(self) -> bool {
        self.registry.wf()
    }

    /// Creates a client with a fresh identity bound to `user_id`, whose
    /// signing key is generated by the engine and persisted in the
    /// provider's storage. Fails only on an engine failure, leaving no
    /// partial identity behind.
    pub fn new(user_id: &str) -> (r: Result<MlsClient, MlsError>)
        requires
            user_id@.len() > 0,
        ensures
            match r {
                Ok(c) => {
                    &&& c.wf()
                    &&& c.models() == Seq::<SessionModel>::empty()
                    &&& c.identity.credential@ == user_id.spec_bytes()
                    &&& c.identity.is_live()
                },
                Err(e) => e is Engine,
            },
    {
        let crypto = new_crypto_provider();
        let keys = match generate_signature_keys() {
            Ok(k) => k,
            Err(msg) => {
                return Err(MlsError::Engine(msg));
            },
        };
        match store_signature_keys(&keys, &crypto) {
            Ok(_) => {},
            Err(msg) => {
                return Err(MlsError::Engine(msg));
            },
        }
        let public_key = signature_public_key(&keys);
        let credential = user_id.as_bytes_vec();
        Ok(
            MlsClient {
                crypto,
                identity: Identity { credential, public_key, signer: Some(keys) },
                registry: SessionRegistry::new(),
            },
        )
    }

    /// Reports the current epoch of the given group, exactly when the group
    /// id is registered.
    pub fn get_epoch(&self, group_id: &str) -> (r: Result<u64, MlsError>)
        requires
            self.wf(),
        ensures
            contains_id(self.models(), group_id@) ==> r == Ok::<u64, MlsError>(
                epoch_at(self.models(), group_id@),
            ),
            !contains_id(self.models(), group_id@) ==> (r matches Err(e) && e is GroupNotFound),
    {
        let key = String::from_str(group_id);
        match self.registry.find(&key) {
            Some(i) => {
                proof {
                    lemma_id_index(self.models(), group_id@, i as int);
                }
                Ok(self.registry.sessions[i].epoch)
            },
            None => Err(MlsError::GroupNotFound),
        }
    }

    /// Issues `count` fresh single-use key packages, each independently
    /// generated and signed under the current identity; any failure aborts
    /// the whole call (all-or-nothing). A count of zero yields an empty
    /// sequence, never an error. Each entry's id is the base64 of the
    /// content-derived reference of that entry's serialized bundle.
    pub fn generate_key_packages(&self, count: u32) -> (r: Result<Vec<KeyPackageData>, MlsError>)
        ensures
            !self.identity.is_live() ==> (r matches Err(e) && e is NotLive),
            self.identity.is_live() ==> !(r matches Err(e) && e is NotLive),
            self.identity.is_live() && count == 0 ==> r is Ok,
            match r {
                Ok(v) => {
                    &&& v@.len() == count as int
                    &&& self.identity.is_live()
                    &&& (forall|t: int|
                        0 <= t < v@.len() ==> issued_package_encoded(#[trigger] v@[t]))
                },
                Err(e) => e is NotLive || e is Engine,
            },
    {
        let keys = match &self.identity.signer {
            Some(k) => k,
            None => {
                return Err(MlsError::NotLive);
            },
        };
        let mut out: Vec<KeyPackageData> = Vec::new();
        let mut i: u32 = 0;
        while i < count
            invariant
                i <= count,
                out@.len() == i as int,
                self.identity.is_live(),
                forall|t: int|
                    0 <= t < out@.len() ==> issued_package_encoded(#[trigger] out@[t]),
            decreases count - i,
        {
            let (reference, data) = match build_key_package(
                &self.crypto,
                keys,
                &self.identity.credential,
            ) {
                Ok(p) => p,
                Err(msg) => {
                    return Err(MlsError::Engine(msg));
                },
            };
            let id = b64_encode(&reference);
            let bundle = b64_encode(&data);
            out.push(KeyPackageData { id, data: bundle });
            proof {
                assert(out@[out@.len() - 1].data@ == b64_of(data@));
                assert(out@[out@.len() - 1].id@ == b64_of(kp_ref_of(data@)));
                assert(issued_package_encoded(out@[out@.len() - 1]));
            }
            i = i + 1;
        }
        Ok(out)
    }

    /// Creates a new group: allocates a fresh random local id, derives the
    /// wire-level group id from it, initializes engine state with this
    /// client as sole member, and registers the session at epoch 0. On any
    /// error the registry is left unchanged.
    pub fn create_group(&mut self, _group_name: &str) -> (r: Result<GroupCreatedData, MlsError>)
        requires
            old(self).wf(),
        ensures
            final(self).wf(),
            final(self).identity == old(self).identity,
            !old(self).identity.is_live() ==> (r matches Err(e) && e is NotLive),
            old(self).identity.is_live() ==> !(r matches Err(e) && e is NotLive),
            match r {
                Ok(g) => {
                    &&& !contains_id(old(self).models(), g.group_id@)
                    &&& final(self).models() == old(self).models().push(
                        final(self).models().last(),
                    )
                    &&& final(self).models().last().id == g.group_id@
                    &&& final(self).models().last().epoch == 0
                    &&& final(self).models().last().is_live()
                    &&& final(self).models().last().wire_id == encode_utf8(
                        final(self).models().last().id,
                    )
                    &&& g.mls_group_id@ == b64_of(final(self).models().last().wire_id)
                },
                Err(e) => {
                    &&& final(self).models() == old(self).models()
                    &&& (e is NotLive || e is DuplicateGroup || e is Engine)
                },
            },
    {
        let keys = match &self.identity.signer {
            Some(k) => k,
            None => {
                return Err(MlsError::NotLive);
            },
        };
        let id = fresh_group_id();
        match self.registry.find(&id) {
            Some(_) => {
                return Err(MlsError::DuplicateGroup);
            },
            None => {},
        }
        let wire_id = id.as_str().as_bytes_vec();
        let group = match engine_create_group(&self.crypto, keys, &self.identity.credential,
            &wire_id) {
            Ok(g) => g,
            Err(msg) => {
                return Err(MlsError::Engine(msg));
            },
        };
        let mls_group_id = b64_encode(&wire_id);
        let session = GroupSession {
            id: id.clone(),
            wire_id,
            epoch: 0,
            state: SessionState::Live(group),
        };
        proof {
            lemma_push_session(old(self).models(), session.model());
        }
        self.registry.insert(session);
        Ok(GroupCreatedData { group_id: id, mls_group_id })
    }

    /// Joins a group from a welcome frame. The frame must decode and must
    /// specifically be a welcome (any other kind is a type-mismatch error,
    /// no partial join). The session is registered under a freshly chosen
    /// random local id — independent of the wire-level id — with the epoch
    /// the engine derived from the welcome.
    pub fn join_group(&mut self, welcome_b64: &str) -> (r: Result<GroupCreatedData, MlsError>)
        requires
            old(self).wf(),
        ensures
            final(self).wf(),
            final(self).identity == old(self).identity,
            (forall|b: Seq<u8>| b64_of(b) != welcome_b64@) ==> (r matches Err(e)
                && e is InvalidEncoding),
            (exists|b: Seq<u8>| b64_of(b) == welcome_b64@) ==> !(r matches Err(e)
                && e is InvalidEncoding),
            match r {
                Ok(g) => {
                    &&& !contains_id(old(self).models(), g.group_id@)
                    &&& final(self).models() == old(self).models().push(
                        final(self).models().last(),
                    )
                    &&& final(self).models().last().id == g.group_id@
                    &&& final(self).models().last().is_live()
                    &&& g.mls_group_id@ == b64_of(final(self).models().last().wire_id)
                },
                Err(e) => {
                    &&& final(self).models() == old(self).models()
                    &&& (e is InvalidEncoding || e is WrongMessageType || e is DuplicateGroup
                        || e is Engine)
                },
            },
    {
        let bytes = match b64_decode(welcome_b64) {
            Ok(b) => b,
            Err(_) => {
                return Err(MlsError::InvalidEncoding);
            },
        };
        let message = match parse_frame(&bytes) {
            Ok(m) => m,
            Err(msg) => {
                return Err(MlsError::Engine(msg));
            },
        };
        let welcome = match message_into_welcome(message) {
            Ok(w) => w,
            Err(_) => {
                return Err(MlsError::WrongMessageType);
            },
        };
        let group = match engine_join(&self.crypto, welcome) {
            Ok(g) => g,
            Err(msg) => {
                return Err(MlsError::Engine(msg));
            },
        };
        let wire_id = engine_group_id(&group);
        let epoch = engine_epoch(&group);
        let id = fresh_group_id();
        match self.registry.find(&id) {
            Some(_) => {
                return Err(MlsError::DuplicateGroup);
            },
            None => {},
        }
        let mls_group_id = b64_encode(&wire_id);
        let session = GroupSession { id: id.clone(), wire_id, epoch, state: SessionState::Live(
            group,
        ) };
        proof {
            lemma_push_session(old(self).models(), session.model());
        }
        self.registry.insert(session);
        Ok(GroupCreatedData { group_id: id, mls_group_id })
    }

    /// Encrypts one application message under the group's current epoch,
    /// which is also returned so the caller can correlate the ciphertext
    /// with the key-schedule state it was produced under. The registry's
    /// model — ids, epochs, liveness — is never changed by encryption.
    pub fn encrypt(&mut self, group_id: &str, plaintext: &Vec<u8>) -> (r: Result<
        EncryptedMessage,
        MlsError,
    >)
        requires
            old(self).wf(),
        ensures
            final(self).wf(),
            final(self).identity == old(self).identity,
            final(self).models() == old(self).models(),
            !contains_id(old(self).models(), group_id@) ==> (r matches Err(e)
                && e is GroupNotFound),
            contains_id(old(self).models(), group_id@) ==> !(r matches Err(e)
                && e is GroupNotFound),
            contains_id(old(self).models(), group_id@) && session_at(
                old(self).models(),
                group_id@,
            ).is_live() && old(self).identity.is_live() ==> !(r matches Err(e) && e is NotLive),
            match r {
                Ok(m) => {
                    &&& contains_id(old(self).models(), group_id@)
                    &&& session_at(old(self).models(), group_id@).is_live()
                    &&& old(self).identity.is_live()
                    &&& m.epoch == epoch_at(old(self).models(), group_id@)
                    &&& (exists|c: Seq<u8>| m.ciphertext@ == b64_of(c))
                },
                Err(e) => e is GroupNotFound || e is NotLive || e is Engine,
            },
    {
        let key = String::from_str(group_id);
        let i = match self.registry.find(&key) {
            Some(i) => i,
            None => {
                return Err(MlsError::GroupNotFound);
            },
        };
        let keys = match &self.identity.signer {
            Some(k) => k,
            None => {
                return Err(MlsError::NotLive);
            },
        };
        proof {
            lemma_id_index(old(self).models(), group_id@, i as int);
        }
        let session = self.registry.take(i);
        let GroupSession { id, wire_id, epoch, state } = session;
        match state {
            SessionState::Restored(tree) => {
                let back = GroupSession { id, wire_id, epoch, state: SessionState::Restored(
                    tree,
                ) };
                self.registry.put(i, back);
                proof {
                    assert(self.models() =~= old(self).models());
                }
                Err(MlsError::NotLive)
            },
            SessionState::Live(mut group) => {
                let res = engine_encrypt(&self.crypto, keys, &mut group, plaintext);
                let back = GroupSession { id, wire_id, epoch, state: SessionState::Live(group) };
                self.registry.put(i, back);
                proof {
                    assert(self.models() =~= old(self).models());
                }
                match res {
                    Ok(frame) => {
                        let ciphertext = b64_encode(&frame);
                        Ok(EncryptedMessage { ciphertext, epoch })
                    },
                    Err(msg) => Err(MlsError::Engine(msg)),
                }
            },
        }
    }

    /// Adds members to a group from their serialized key packages. Every
    /// package is independently decoded and validated before any state is
    /// touched; one invalid package fails the entire call and leaves the
    /// registry's model — epochs included — exactly as it was. On success
    /// the self-issued commit is merged immediately, advancing this group's
    /// epoch by one, and one welcome entry per new member is returned,
    /// each tagged with that member's key-package reference.
    #[verifier::loop_isolation(false)]
    pub fn add_members(&mut self, group_id: &str, key_packages_b64: Vec<String>) -> (r: Result<
        AddMembersResult,
        MlsError,
    >)
        requires
            old(self).wf(),
        ensures
            final(self).wf(),
            final(self).identity == old(self).identity,
            !contains_id(old(self).models(), group_id@) ==> (r matches Err(e)
                && e is GroupNotFound),
            contains_id(old(self).models(), group_id@) ==> !(r matches Err(e)
                && e is GroupNotFound),
            contains_id(old(self).models(), group_id@) && session_at(
                old(self).models(),
                group_id@,
            ).is_live() && old(self).identity.is_live() ==> !(r matches Err(e) && e is NotLive),
            (forall|t: int|
                0 <= t < key_packages_b64@.len() ==> (exists|b: Seq<u8>|
                    b64_of(b) == (#[trigger] key_packages_b64@[t])@)) ==> !(r matches Err(e)
                && e is InvalidEncoding),
            match r {
                Ok(res) => {
                    &&& contains_id(old(self).models(), group_id@)
                    &&& session_at(old(self).models(), group_id@).is_live()
                    &&& old(self).identity.is_live()
                    &&& epoch_at(old(self).models(), group_id@) < u64::MAX
                    &&& final(self).models() == old(self).models().update(
                        index_of_id(old(self).models(), group_id@),
                        (SessionModel {
                            epoch: (epoch_at(old(self).models(), group_id@) + 1) as u64,
                            ..session_at(old(self).models(), group_id@)
                        }),
                    )
                    &&& res.welcomes@.len() == key_packages_b64@.len()
                    &&& (exists|c: Seq<u8>| res.commit@ == b64_of(c))
                    &&& (forall|t: int|
                        0 <= t < res.welcomes@.len() ==> (exists|w: Seq<u8>|
                            (#[trigger] res.welcomes@[t]).welcome@ == b64_of(w)))
                },
                Err(e) => {
                    &&& final(self).models() == old(self).models()
                    &&& (e is GroupNotFound || e is NotLive || e is InvalidEncoding
                        || e is InvalidKeyPackage || e is EpochOverflow || e is Engine)
                },
            },
    {
        let key = String::from_str(group_id);
        let i = match self.registry.find(&key) {
            Some(i) => i,
            None => {
                return Err(MlsError::GroupNotFound);
            },
        };
        let keys = match &self.identity.signer {
            Some(k) => k,
            None => {
                return Err(MlsError::NotLive);
            },
        };
        // Decode and validate the whole batch before any state changes, so
        // that one bad package aborts the call atomically.
        let n = key_packages_b64.len();
        let mut packages: Vec<KeyPackage> = Vec::new();
        let mut refs: Vec<Vec<u8>> = Vec::new();
        let mut k: usize = 0;
        while k < n
            invariant
                k <= n,
                packages@.len() == k as int,
                refs@.len() == k as int,
            decreases n - k,
        {
            let data = match b64_decode(key_packages_b64[k].as_str()) {
                Ok(d) => d,
                Err(_) => {
                    proof {
                        assert(!(exists|b: Seq<u8>|
                            b64_of(b) == key_packages_b64@[k as int]@));
                    }
                    return Err(MlsError::InvalidEncoding);
                },
            };
            let package = match validate_key_package(&self.crypto, &data) {
                Ok(p) => p,
                Err(_) => {
                    return Err(MlsError::InvalidKeyPackage);
                },
            };
            let reference = match key_package_ref(&self.crypto, &package) {
                Ok(h) => h,
                Err(msg) => {
                    return Err(MlsError::Engine(msg));
                },
            };
            packages.push(package);
            refs.push(reference);
            k = k + 1;
        }
        proof {
            lemma_id_index(old(self).models(), group_id@, i as int);
        }
        let session = self.registry.take(i);
        let GroupSession { id, wire_id, epoch, state } = session;
        match state {
            SessionState::Restored(tree) => {
                let back = GroupSession { id, wire_id, epoch, state: SessionState::Restored(
                    tree,
                ) };
                self.registry.put(i, back);
                proof {
                    assert(self.models() =~= old(self).models());
                }
                Err(MlsError::NotLive)
            },
            SessionState::Live(mut group) => {
                if epoch == u64::MAX {
                    let back = GroupSession { id, wire_id, epoch, state: SessionState::Live(
                        group,
                    ) };
                    self.registry.put(i, back);
                    proof {
                        assert(self.models() =~= old(self).models());
                    }
                    return Err(MlsError::EpochOverflow);
                }
                match engine_add_members(&self.crypto, keys, &mut group, &packages) {
                    Err(msg) => {
                        let back = GroupSession { id, wire_id, epoch, state: SessionState::Live(
                            group,
                        ) };
                        self.registry.put(i, back);
                        proof {
                            assert(self.models() =~= old(self).models());
                        }
                        Err(MlsError::Engine(msg))
                    },
                    Ok((commit_bytes, welcome_bytes)) => {
                        match engine_merge_pending(&self.crypto, &mut group) {
                            Err(msg) => {
                                let back = GroupSession {
                                    id,
                                    wire_id,
                                    epoch,
                                    state: SessionState::Live(group),
                                };
                                self.registry.put(i, back);
                                proof {
                                    assert(self.models() =~= old(self).models());
                                }
                                Err(MlsError::Engine(msg))
                            },
                            Ok(_) => {
                                let back = GroupSession {
                                    id,
                                    wire_id,
                                    epoch: epoch + 1,
                                    state: SessionState::Live(group),
                                };
                                proof {
                                    lemma_update_session(
                                        old(self).models(),
                                        i as int,
                                        back.model(),
                                    );
                                }
                                self.registry.put(i, back);
                                proof {
                                    assert(self.models() =~= old(self).models().update(
                                        i as int,
                                        back.model(),
                                    ));
                                }
                                let commit = b64_encode(&commit_bytes);
                                let welcome = b64_encode(&welcome_bytes);
                                let mut welcomes: Vec<WelcomeData> = Vec::new();
                                let mut j: usize = 0;
                                while j < n
                                    invariant
                                        j <= n,
                                        refs@.len() == n as int,
                                        welcomes@.len() == j as int,
                                        forall|t: int|
                                            0 <= t < j ==> (exists|w: Seq<u8>|
                                                (#[trigger] welcomes@[t]).welcome@ == b64_of(w)),
                                    decreases n - j,
                                {
                                    welcomes.push(
                                        WelcomeData {
                                            key_package_ref: b64_encode(&refs[j]),
                                            welcome: welcome.clone(),
                                        },
                                    );
                                    j = j + 1;
                                }
                                Ok(AddMembersResult { commit, welcomes })
                            },
                        }
                    },
                }
            },
        }
    }

    /// The inbound message-processing pipeline. The frame is decrypted and
    /// classified by the engine, then dispatched over the closed set of
    /// content kinds: an application message yields its plaintext and the
    /// sender's leaf index, a staged commit is merged and advances this
    /// group's epoch by one, and every other kind is refused with an
    /// explicit error. An unknown group id fails with a not-found error
    /// before the frame is even decoded, and no failure ever changes the
    /// registry's model.
    pub fn decrypt(&mut self, group_id: &str, ciphertext_b64: &str) -> (r: Result<
        InboundOutcome,
        MlsError,
    >)
        requires
            old(self).wf(),
        ensures
            final(self).wf(),
            final(self).identity == old(self).identity,
            !contains_id(old(self).models(), group_id@) ==> (r matches Err(e)
                && e is GroupNotFound),
            contains_id(old(self).models(), group_id@) ==> !(r matches Err(e)
                && e is GroupNotFound),
            contains_id(old(self).models(), group_id@) && !session_at(
                old(self).models(),
                group_id@,
            ).is_live() ==> (r matches Err(e) && e is NotLive),
            r is Err ==> final(self).models() == old(self).models(),
            contains_id(old(self).models(), group_id@) && session_at(
                old(self).models(),
                group_id@,
            ).is_live() && (forall|b: Seq<u8>| b64_of(b) != ciphertext_b64@) ==> (r matches Err(e)
                && e is InvalidEncoding),
            contains_id(old(self).models(), group_id@) && session_at(
                old(self).models(),
                group_id@,
            ).is_live() && (exists|b: Seq<u8>| b64_of(b) == ciphertext_b64@) ==> !(r matches Err(
                e,
            ) && e is InvalidEncoding),
            match r {
                Ok(out) => {
                    &&& contains_id(old(self).models(), group_id@)
                    &&& session_at(old(self).models(), group_id@).is_live()
                    &&& match out {
                        InboundOutcome::Plaintext(d) => final(self).models() == old(
                            self,
                        ).models(),
                        InboundOutcome::CommitApplied => {
                            &&& epoch_at(old(self).models(), group_id@) < u64::MAX
                            &&& final(self).models() == old(self).models().update(
                                index_of_id(old(self).models(), group_id@),
                                (SessionModel {
                                    epoch: (epoch_at(old(self).models(), group_id@) + 1) as u64,
                                    ..session_at(old(self).models(), group_id@)
                                }),
                            )
                        },
                    }
                },
                Err(e) => e is GroupNotFound || e is NotLive || e is InvalidEncoding
                    || e is UnsupportedMessage || e is EpochOverflow || e is Engine,
            },
    {
        let key = String::from_str(group_id);
        let i = match self.registry.find(&key) {
            Some(i) => i,
            None => {
                return Err(MlsError::GroupNotFound);
            },
        };
        proof {
            lemma_id_index(old(self).models(), group_id@, i as int);
        }
        let session = self.registry.take(i);
        let GroupSession { id, wire_id, epoch, state } = session;
        match state {
            SessionState::Restored(tree) => {
                let back = GroupSession { id, wire_id, epoch, state: SessionState::Restored(
                    tree,
                ) };
                self.registry.put(i, back);
                proof {
                    assert(self.models() =~= old(self).models());
                }
                Err(MlsError::NotLive)
            },
            SessionState::Live(mut group) => {
                let bytes = match b64_decode(ciphertext_b64) {
                    Ok(b) => b,
                    Err(_) => {
                        let back = GroupSession { id, wire_id, epoch, state: SessionState::Live(
                            group,
                        ) };
                        self.registry.put(i, back);
                        proof {
                            assert(self.models() =~= old(self).models());
                        }
                        return Err(MlsError::InvalidEncoding);
                    },
                };
                let parsed: Result<InboundContent, String> = match parse_frame(&bytes) {
                    Ok(message) => match message_into_protocol(message) {
                        Ok(protocol) => engine_process(&self.crypto, &mut group, protocol),
                        Err(msg) => Err(msg),
                    },
                    Err(msg) => Err(msg),
                };
                let content = match parsed {
                    Ok(c) => c,
                    Err(msg) => {
                        let back = GroupSession { id, wire_id, epoch, state: SessionState::Live(
                            group,
                        ) };
                        self.registry.put(i, back);
                        proof {
                            assert(self.models() =~= old(self).models());
                        }
                        return Err(MlsError::Engine(msg));
                    },
                };
                let ghost kind = content;
                match dispatch_content(&self.crypto, &mut group, epoch, content) {
                    Err(e) => {
                        proof {
                            if kind is Application {
                                assert(false);
                            }
                        }
                        let back = GroupSession { id, wire_id, epoch, state: SessionState::Live(
                            group,
                        ) };
                        self.registry.put(i, back);
                        proof {
                            assert(self.models() =~= old(self).models());
                        }
                        Err(e)
                    },
                    Ok((outcome, new_epoch)) => match outcome {
                        InboundOutcome::Plaintext(d) => {
                            proof {
                                if kind is Commit {
                                    assert(false);
                                }
                                if kind is Proposal || kind is ExternalJoin || kind is OwnEcho {
                                    assert(false);
                                }
                            }
                            let back = GroupSession {
                                id,
                                wire_id,
                                epoch: new_epoch,
                                state: SessionState::Live(group),
                            };
                            self.registry.put(i, back);
                            proof {
                                assert(self.models() =~= old(self).models());
                            }
                            Ok(InboundOutcome::Plaintext(d))
                        },
                        InboundOutcome::CommitApplied => {
                            proof {
                                if kind is Application {
                                    assert(false);
                                }
                                if kind is Proposal || kind is ExternalJoin || kind is OwnEcho {
                                    assert(false);
                                }
                            }
                            let back = GroupSession {
                                id,
                                wire_id,
                                epoch: new_epoch,
                                state: SessionState::Live(group),
                            };
                            proof {
                                lemma_update_session(old(self).models(), i as int, back.model());
                            }
                            self.registry.put(i, back);
                            proof {
                                assert(self.models() =~= old(self).models().update(
                                    i as int,
                                    back.model(),
                                ));
                            }
                            Ok(InboundOutcome::CommitApplied)
                        },
                    },
                }
            },
        }
    }
}

/// The pipeline's dispatch over the closed set of inbound content kinds,
/// one outcome per kind: an application message yields exactly its
/// plaintext and its sender's leaf index at the unchanged epoch, a staged
/// commit is merged and the epoch advances by one (or the merge error is
/// reported), and a bare proposal, an external-join proposal or an echo of
/// this client's own message is refused with an explicit unsupported-kind
/// error.
fn dispatch_content(
    crypto: &OpenMlsRustCrypto,
    group: &mut MlsGroup,
    epoch: u64,
    content: InboundContent,
) -> (r: Result<(InboundOutcome, u64), MlsError>)
    ensures
        content matches InboundContent::Application(p, s) ==> r == Ok::<
            (InboundOutcome, u64),
            MlsError,
        >(
            (
                InboundOutcome::Plaintext((DecryptedMessage { plaintext: p, sender_index: s })),
                epoch,
            ),
        ),
        content is Proposal || content is ExternalJoin || content is OwnEcho ==> (r matches Err(e)
            && e is UnsupportedMessage),
        content is Commit ==> match r {
            Ok(v) => v.0 is CommitApplied && epoch < u64::MAX && v.1 == epoch + 1,
            Err(e) => (e is EpochOverflow && epoch == u64::MAX) || e is Engine,
        },
{
    match content {
        InboundContent::Application(plaintext, sender_index) => Ok(
            (InboundOutcome::Plaintext(DecryptedMessage { plaintext, sender_index }), epoch),
        ),
        InboundContent::Proposal => Err(MlsError::UnsupportedMessage),
        InboundContent::ExternalJoin => Err(MlsError::UnsupportedMessage),
        InboundContent::OwnEcho => Err(MlsError::UnsupportedMessage),
        InboundContent::Commit(staged) => {
            if epoch == u64::MAX {
                Err(MlsError::EpochOverflow)
            } else {
                match engine_merge_staged(crypto, group, staged) {
                    Ok(_) => Ok((InboundOutcome::CommitApplied, epoch + 1)),
                    Err(msg) => Err(MlsError::Engine(msg)),
                }
            }
        },
    }
}

} // verus!
