//! Trusted boundary to the outside crates: the OpenMLS cryptographic engine,
//! the base64 codec and the random-id source.
//!
//! Every item here is believed, not proved: each wrapper's contract states
//! only what the called crate's source or documentation shows. Results that
//! depend on fresh randomness (key material, group handles, ids) get no
//! contract at all; the verified layers above treat them as opaque values
//! and carry their own bookkeeping.

use vstd::prelude::*;

use base64::Engine as Base64Engine;
use openmls::prelude::tls_codec::Deserialize as TlsDeserialize;
use openmls::prelude::tls_codec::Serialize as TlsSerialize;
use openmls::prelude::BasicCredential;
use openmls::prelude::Ciphersuite;
use openmls::prelude::CredentialWithKey;
use openmls::prelude::GroupId;
use openmls::prelude::KeyPackage;
use openmls::prelude::KeyPackageIn;
use openmls::prelude::MlsGroup;
use openmls::prelude::MlsGroupCreateConfig;
use openmls::prelude::MlsGroupJoinConfig;
use openmls::prelude::MlsMessageBodyIn;
use openmls::prelude::MlsMessageIn;
use openmls::prelude::OpenMlsProvider;
use openmls::prelude::ProcessedMessageContent;
use openmls::prelude::ProtocolMessage;
use openmls::prelude::ProtocolVersion;
use openmls::prelude::Sender;
use openmls::prelude::StagedCommit;
use openmls::prelude::StagedWelcome;
use openmls::prelude::Welcome;
use openmls_basic_credential::SignatureKeyPair;
use openmls_rust_crypto::OpenMlsRustCrypto;

verus! {

#[verifier::external_type_specification]
#[verifier::external_body]
pub struct ExProvider(OpenMlsRustCrypto);

#[verifier::external_type_specification]
#[verifier::external_body]
pub struct ExSignatureKeyPair(SignatureKeyPair);

#[verifier::external_type_specification]
#[verifier::external_body]
pub struct ExMlsGroup(MlsGroup);

#[verifier::external_type_specification]
#[verifier::external_body]
pub struct ExMlsMessageIn(MlsMessageIn);

#[verifier::external_type_specification]
#[verifier::external_body]
pub struct ExProtocolMessage(ProtocolMessage);

#[verifier::external_type_specification]
#[verifier::external_body]
pub struct ExWelcome(Welcome);

#[verifier::external_type_specification]
#[verifier::external_body]
pub struct ExStagedCommit(StagedCommit);

#[verifier::external_type_specification]
#[verifier::external_body]
pub struct ExKeyPackage(KeyPackage);

/// The content of one inbound protocol frame after engine-side decryption
/// and validation, as a closed set of tags: adding a protocol message kind
/// forces an update of every dispatch over this enum.
pub enum InboundContent {
    /// A decrypted, authenticated application message: its plaintext bytes
    /// and the leaf index of the member that sent it.
    Application(Vec<u8>, u32),
    /// A standalone proposal awaiting a later commit.
    Proposal,
    /// A staged commit; merging it advances the group's epoch.
    Commit(Box<StagedCommit>),
    /// A join proposal from a party outside the group.
    ExternalJoin,
    /// A message this client authored, fanned back by the delivery service.
    OwnEcho,
}

/// The base64 text that the standard engine produces for a byte sequence.
pub uninterp spec fn b64_of(bytes: Seq<u8>) -> Seq<char>;

/// The content-derived reference of a serialized key package: a digest of
/// the serialized bundle alone.
pub uninterp spec fn kp_ref_of(bytes: Seq<u8>) -> Seq<u8>;

/// Relies on base64's `STANDARD` engine: `encode` depends on the input bytes
/// alone.
#[verifier::external_body]
pub(crate) fn b64_encode(bytes: &Vec<u8>) -> (r: String)
    ensures
        r@ == b64_of(bytes@),
{
    base64::engine::general_purpose::STANDARD.encode(bytes)
}

/// Relies on base64's `STANDARD` engine: it pads canonically and refuses
/// trailing bits, so `decode` succeeds exactly on the encodings that
/// `encode` produces, and inverts it there.
#[verifier::external_body]
pub(crate) fn b64_decode(text: &str) -> (r: Result<Vec<u8>, String>)
    ensures
        match r {
            Ok(v) => text@ == b64_of(v@) && forall|b: Seq<u8>| b64_of(b) == text@ ==> b == v@,
            Err(_) => forall|b: Seq<u8>| b64_of(b) != text@,
        },
{
    base64::engine::general_purpose::STANDARD.decode(text).map_err(|e| e.to_string())
}

/// Relies on uuid's `Uuid::new_v4`: a randomly drawn id, rendered as text.
/// Nothing can be promised of a random value. If the operating system's
/// randomness source fails, the call aborts the process; no `requires` can
/// exclude that environmental failure.
#[verifier::external_body]
pub(crate) fn fresh_group_id() -> String {
    uuid::Uuid::new_v4().to_string()
}

/// Relies on `OpenMlsRustCrypto::default`: a fresh crypto/storage provider.
#[verifier::external_body]
pub(crate) fn new_crypto_provider() -> OpenMlsRustCrypto {
    OpenMlsRustCrypto::default()
}

/// Relies on `SignatureKeyPair::new`: fresh signing key material for the
/// ciphersuite's signature scheme, or the engine's error text. The Ed25519
/// arm draws from the operating system's randomness source and aborts the
/// process if that source fails.
#[verifier::external_body]
pub(crate) fn generate_signature_keys() -> (r: Result<SignatureKeyPair, String>) {
    SignatureKeyPair::new(
        Ciphersuite::MLS_128_DHKEMX25519_AES128GCM_SHA256_Ed25519.signature_algorithm(),
    )
        .map_err(|e| e.to_string())
}

/// Relies on `SignatureKeyPair::store`: persists the keys into the
/// provider's storage backend.
#[verifier::external_body]
pub(crate) fn store_signature_keys(
    keys: &SignatureKeyPair,
    provider: &OpenMlsRustCrypto,
) -> (r: Result<(), String>) {
    keys.store(provider.storage()).map_err(|e| e.to_string())
}

/// Relies on `SignatureKeyPair::to_public_vec`: the public half of the keys.
#[verifier::external_body]
pub(crate) fn signature_public_key(keys: &SignatureKeyPair) -> Vec<u8> {
    keys.to_public_vec()
}

/// Relies on `KeyPackage::builder().build(..)`, `tls_serialize_detached` and
/// `hash_ref`: one freshly generated, signed key package, returned as its
/// content-derived reference and its serialized bundle. The reference is a
/// digest computed over the serialized bundle alone, so it is named as a
/// function of those bytes.
#[verifier::external_body]
pub(crate) fn build_key_package(
    provider: &OpenMlsRustCrypto,
    keys: &SignatureKeyPair,
    credential: &Vec<u8>,
) -> (r: Result<(Vec<u8>, Vec<u8>), String>)
    ensures
        r matches Ok(p) ==> p.0@ == kp_ref_of(p.1@),
{
    let cwk = CredentialWithKey {
        credential: BasicCredential::new(credential.clone()).into(),
        signature_key: keys.public().into(),
    };
    let bundle = KeyPackage::builder()
        .build(Ciphersuite::MLS_128_DHKEMX25519_AES128GCM_SHA256_Ed25519, provider, keys, cwk)
        .map_err(|e| e.to_string())?;
    let data = bundle.key_package().tls_serialize_detached().map_err(|e| e.to_string())?;
    let hash = bundle.key_package().hash_ref(provider.crypto()).map_err(|e| e.to_string())?;
    Ok((hash.as_slice().to_vec(), data))
}

/// Relies on `MlsGroup::new_with_group_id`: a new group under the given wire
/// id with this client as sole member. The ratchet-tree extension is turned
/// on so that welcomes carry the membership tree a joiner needs.
#[verifier::external_body]
pub(crate) fn engine_create_group(
    provider: &OpenMlsRustCrypto,
    keys: &SignatureKeyPair,
    credential: &Vec<u8>,
    wire_id: &Vec<u8>,
) -> (r: Result<MlsGroup, String>) {
    let cwk = CredentialWithKey {
        credential: BasicCredential::new(credential.clone()).into(),
        signature_key: keys.public().into(),
    };
    let cfg = MlsGroupCreateConfig::builder()
        .ciphersuite(Ciphersuite::MLS_128_DHKEMX25519_AES128GCM_SHA256_Ed25519)
        .use_ratchet_tree_extension(true)
        .build();
    MlsGroup::new_with_group_id(provider, keys, &cfg, GroupId::from_slice(wire_id.as_slice()), cwk)
        .map_err(|e| e.to_string())
}

/// Relies on `MlsMessageIn::tls_deserialize`: parses one length-prefixed
/// protocol frame.
#[verifier::external_body]
pub(crate) fn parse_frame(frame: &Vec<u8>) -> (r: Result<MlsMessageIn, String>) {
    MlsMessageIn::tls_deserialize(&mut frame.as_slice()).map_err(|e| e.to_string())
}

/// Relies on `MlsMessageIn::extract`: hands the welcome out of a parsed
/// frame, and refuses every other message body kind.
#[verifier::external_body]
pub(crate) fn message_into_welcome(message: MlsMessageIn) -> (r: Result<Welcome, String>) {
    match message.extract() {
        MlsMessageBodyIn::Welcome(w) => Ok(w),
        _ => Err("not a welcome".to_string()),
    }
}

/// Relies on `MlsMessageIn::try_into_protocol_message`: only public and
/// private protocol messages pass.
#[verifier::external_body]
pub(crate) fn message_into_protocol(message: MlsMessageIn) -> (r: Result<ProtocolMessage, String>) {
    message.try_into_protocol_message().map_err(|e| format!("{e:?}"))
}

/// Relies on `StagedWelcome::new_from_welcome` and `into_group`: joins the
/// group described by the welcome, deriving the current group state.
#[verifier::external_body]
pub(crate) fn engine_join(
    provider: &OpenMlsRustCrypto,
    welcome: Welcome,
) -> (r: Result<MlsGroup, String>) {
    let cfg = MlsGroupJoinConfig::builder().build();
    StagedWelcome::new_from_welcome(provider, &cfg, welcome, None)
        .map_err(|e| e.to_string())?
        .into_group(provider)
        .map_err(|e| e.to_string())
}

/// Relies on `MlsGroup::group_id`: the wire-visible group id bytes.
#[verifier::external_body]
pub(crate) fn engine_group_id(group: &MlsGroup) -> Vec<u8> {
    group.group_id().as_slice().to_vec()
}

/// Relies on `MlsGroup::epoch`: the engine's current epoch counter.
#[verifier::external_body]
pub(crate) fn engine_epoch(group: &MlsGroup) -> u64 {
    group.epoch().as_u64()
}

/// Relies on `KeyPackageIn::tls_deserialize` and `validate`: structural and
/// protocol-version validation of one serialized key package.
#[verifier::external_body]
pub(crate) fn validate_key_package(
    provider: &OpenMlsRustCrypto,
    data: &Vec<u8>,
) -> (r: Result<KeyPackage, String>) {
    let kp_in = KeyPackageIn::tls_deserialize(&mut data.as_slice()).map_err(|e| e.to_string())?;
    kp_in.validate(provider.crypto(), ProtocolVersion::Mls10).map_err(|e| format!("{e:?}"))
}

/// Relies on `KeyPackage::hash_ref`: the content-derived reference of a
/// validated key package.
#[verifier::external_body]
pub(crate) fn key_package_ref(
    provider: &OpenMlsRustCrypto,
    package: &KeyPackage,
) -> (r: Result<Vec<u8>, String>) {
    package.hash_ref(provider.crypto()).map(|h| h.as_slice().to_vec()).map_err(|e| e.to_string())
}

/// Relies on `MlsGroup::add_members` and `tls_serialize_detached`: stages a
/// commit adding the given members and returns the serialized commit and
/// welcome frames.
#[verifier::external_body]
pub(crate) fn engine_add_members(
    provider: &OpenMlsRustCrypto,
    keys: &SignatureKeyPair,
    group: &mut MlsGroup,
    packages: &Vec<KeyPackage>,
) -> (r: Result<(Vec<u8>, Vec<u8>), String>) {
    let (commit, welcome, _info) =
        group.add_members(provider, keys, packages.as_slice()).map_err(|e| e.to_string())?;
    let c = commit.tls_serialize_detached().map_err(|e| e.to_string())?;
    let w = welcome.tls_serialize_detached().map_err(|e| e.to_string())?;
    Ok((c, w))
}

/// Relies on `MlsGroup::merge_pending_commit`: applies this client's own
/// staged commit, advancing the engine's epoch.
#[verifier::external_body]
pub(crate) fn engine_merge_pending(
    provider: &OpenMlsRustCrypto,
    group: &mut MlsGroup,
) -> (r: Result<(), String>) {
    group.merge_pending_commit(provider).map_err(|e| e.to_string())
}

/// Relies on `MlsGroup::create_message` and `tls_serialize_detached`: one
/// application message encrypted under the group's current epoch.
#[verifier::external_body]
pub(crate) fn engine_encrypt(
    provider: &OpenMlsRustCrypto,
    keys: &SignatureKeyPair,
    group: &mut MlsGroup,
    plaintext: &Vec<u8>,
) -> (r: Result<Vec<u8>, String>) {
    let msg =
        group.create_message(provider, keys, plaintext.as_slice()).map_err(|e| e.to_string())?;
    msg.tls_serialize_detached().map_err(|e| e.to_string())
}

/// Relies on `MlsGroup::process_message`, `ProcessedMessage::sender` and
/// `ProcessedMessage::into_content`: decrypts and validates one inbound
/// protocol message and reports its content kind, one tag per engine-side
/// variant; an application message carries its sender's leaf index.
#[verifier::external_body]
pub(crate) fn engine_process(
    provider: &OpenMlsRustCrypto,
    group: &mut MlsGroup,
    message: ProtocolMessage,
) -> (r: Result<InboundContent, String>) {
    let processed = group.process_message(provider, message).map_err(|e| e.to_string())?;
    let sender = match processed.sender() { Sender::Member(i) => Some(i.u32()), _ => None };
    let no_member = "application message without a member sender".to_string();
    Ok(match processed.into_content() {
        ProcessedMessageContent::ApplicationMessage(a) =>
            InboundContent::Application(a.into_bytes(), sender.ok_or(no_member)?),
        ProcessedMessageContent::ProposalMessage(_) => InboundContent::Proposal,
        ProcessedMessageContent::ExternalJoinProposalMessage(_) => InboundContent::ExternalJoin,
        ProcessedMessageContent::StagedCommitMessage(c) => InboundContent::Commit(c),
        ProcessedMessageContent::OwnPendingCommit => InboundContent::OwnEcho,
        ProcessedMessageContent::OwnPrivateMessage => InboundContent::OwnEcho,
    })
}

/// Relies on `MlsGroup::merge_staged_commit`: merges an inbound staged
/// commit, advancing the engine's epoch.
#[verifier::external_body]
pub(crate) fn engine_merge_staged(
    provider: &OpenMlsRustCrypto,
    group: &mut MlsGroup,
    staged: Box<StagedCommit>,
) -> (r: Result<(), String>) {
    group.merge_staged_commit(provider, *staged).map_err(|e| e.to_string())
}

/// Relies on `MlsGroup::export_ratchet_tree` and `tls_serialize_detached`:
/// the serialized membership-tree view of the group.
#[verifier::external_body]
pub(crate) fn engine_export_tree(group: &MlsGroup) -> (r: Result<Vec<u8>, String>) {
    group.export_ratchet_tree().tls_serialize_detached().map_err(|e| e.to_string())
}

} // verus!
