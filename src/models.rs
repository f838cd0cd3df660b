//! The records that cross the foreign boundary, with identifiers held as their
//! canonical text, and the checks that every such record passes before it
//! reaches the engine.
//!
//! Each `check` reads the identifier fields in a fixed order and fails with
//! the error of the first field that is not canonical; a JSON field that does
//! not parse fails with `NoJSONString`.
use std::collections::HashMap;
use vstd::prelude::*;
use crate::codec::{is_canonical, malformed, CanonicalId, IdKind, TapleKeyDerivator};
use crate::error::TapleError;

verus! {

/// Whether serde_json reads `s` as a JSON value.
pub uninterp spec fn is_json(s: Seq<char>) -> bool;

/// Relies on serde_json::from_str into a `serde_json::Value`: whether the text
/// is one JSON value, which depends on the text alone.
#[verifier::external_body]
fn json_parses(s: &str) -> (r: bool)
    ensures
        r == is_json(s@),
{
    serde_json::from_str::<serde_json::Value>(s).is_ok()
}

/// `Ok` when `s` is canonical text of kind `k`, else `k`'s error.
pub open spec fn id_check(k: IdKind, s: Seq<char>) -> Result<(), TapleError> {
    if is_canonical(k, s) {
        Ok(())
    } else {
        Err(malformed(k))
    }
}

/// `Ok` when `s` is JSON, else `NoJSONString`.
pub open spec fn json_check(s: Seq<char>) -> Result<(), TapleError> {
    if is_json(s) {
        Ok(())
    } else {
        Err(TapleError::NoJSONString)
    }
}

/// The first failure of two checks made in turn.
pub open spec fn and_then(a: Result<(), TapleError>, b: Result<(), TapleError>) -> Result<
    (),
    TapleError,
> {
    match a {
        Ok(_) => b,
        Err(e) => Err(e),
    }
}

fn check_id(k: IdKind, s: &String) -> (r: Result<(), TapleError>)
    ensures
        r == id_check(k, s@),
{
    if CanonicalId::is_valid(k, s.as_str()) {
        Ok(())
    } else {
        Err(match k {
            IdKind::Digest => TapleError::DigestIdentifierGenerationFailed,
            IdKind::Key => TapleError::KeyIdentifierGenerationFailed,
            IdKind::Signature => TapleError::SignatureIdentifierGenerationFailed,
        })
    }
}

fn check_json(s: &String) -> (r: Result<(), TapleError>)
    ensures
        r == json_check(s@),
{
    if json_parses(s.as_str()) {
        Ok(())
    } else {
        Err(TapleError::NoJSONString)
    }
}

/// A signature, with its signer key, signature value and signed content hash
/// in canonical text.
#[derive(Clone, Debug, Hash, PartialEq, Eq)]
pub struct TapleSignature {
    pub signer: String,
    pub timestamp: u64,
    pub value: String,
    pub content_hash: String,
}

pub open spec fn signature_check(s: TapleSignature) -> Result<(), TapleError> {
    and_then(
        id_check(IdKind::Key, s.signer@),
        and_then(id_check(IdKind::Signature, s.value@), id_check(IdKind::Digest, s.content_hash@)),
    )
}

impl TapleSignature {
    /// Checks signer, value and content hash, in that order.
    pub fn check(&self) -> (r: Result<(), TapleError>)
        ensures
            r == signature_check(*self),
    {
        check_id(IdKind::Key, &self.signer)?;
        check_id(IdKind::Signature, &self.value)?;
        check_id(IdKind::Digest, &self.content_hash)
    }
}

/// The body of a request to the ledger.
#[derive(Clone, Debug, PartialEq, Eq)]
pub enum EventRequestType {
    Create {
        governance_id: String,
        schema_id: String,
        namespace: String,
        name: String,
        public_key: String,
    },
    Fact { subject_id: String, payload: String },
    Transfer { subject_id: String, public_key: String },
    EOL { subject_id: String },
}

pub open spec fn event_request_check(e: EventRequestType) -> Result<(), TapleError> {
    match e {
        EventRequestType::Create { governance_id, public_key, .. } => and_then(
            id_check(IdKind::Digest, governance_id@),
            id_check(IdKind::Key, public_key@),
        ),
        EventRequestType::Fact { subject_id, payload } => and_then(
            id_check(IdKind::Digest, subject_id@),
            json_check(payload@),
        ),
        EventRequestType::Transfer { subject_id, public_key } => and_then(
            id_check(IdKind::Digest, subject_id@),
            id_check(IdKind::Key, public_key@),
        ),
        EventRequestType::EOL { subject_id } => id_check(IdKind::Digest, subject_id@),
    }
}

impl EventRequestType {
    /// Checks the identifiers, and the payload of a fact, in field order.
    pub fn check(&self) -> (r: Result<(), TapleError>)
        ensures
            r == event_request_check(*self),
    {
        match self {
            EventRequestType::Create { governance_id, public_key, .. } => {
                check_id(IdKind::Digest, governance_id)?;
                check_id(IdKind::Key, public_key)
            },
            EventRequestType::Fact { subject_id, payload } => {
                check_id(IdKind::Digest, subject_id)?;
                check_json(payload)
            },
            EventRequestType::Transfer { subject_id, public_key } => {
                check_id(IdKind::Digest, subject_id)?;
                check_id(IdKind::Key, public_key)
            },
            EventRequestType::EOL { subject_id } => check_id(IdKind::Digest, subject_id),
        }
    }
}

#[derive(Clone, Debug, PartialEq, Eq)]
pub struct TransferRequest {
    pub subject_id: String,
    pub public_key: String,
}

#[derive(Clone, Debug, PartialEq, Eq)]
pub struct EOLRequest {
    pub subject_id: String,
}

/// A request body with its signature.
#[derive(Clone, Debug, PartialEq, Eq)]
pub struct TapleSignedEventRequest {
    pub content: EventRequestType,
    pub signature: TapleSignature,
}

pub open spec fn signed_event_request_check(r: TapleSignedEventRequest) -> Result<(), TapleError> {
    and_then(event_request_check(r.content), signature_check(r.signature))
}

impl TapleSignedEventRequest {
    /// Checks the content, then the signature.
    pub fn check(&self) -> (r: Result<(), TapleError>)
        ensures
            r == signed_event_request_check(*self),
    {
        self.content.check()?;
        self.signature.check()
    }
}

#[derive(Clone, Copy, Debug, PartialEq, Eq, Structural)]
pub enum TapleRequestState {
    Finished,
    Error,
    Processing,
}

/// A request known to the ledger, and how far it has gone.
#[derive(Clone, Debug, PartialEq, Eq)]
pub struct TapleRequest {
    pub id: String,
    pub subject_id: Option<String>,
    pub sn: u64,
    pub event_request: TapleSignedEventRequest,
    pub state: TapleRequestState,
    pub success: bool,
}

pub open spec fn request_check(r: TapleRequest) -> Result<(), TapleError> {
    and_then(
        id_check(IdKind::Digest, r.id@),
        and_then(
            match r.subject_id {
                Some(s) => id_check(IdKind::Digest, s@),
                None => Ok(()),
            },
            signed_event_request_check(r.event_request),
        ),
    )
}

impl TapleRequest {
    /// Checks the request id, the subject id when there is one, then the
    /// signed request.
    pub fn check(&self) -> (r: Result<(), TapleError>)
        ensures
            r == request_check(*self),
    {
        check_id(IdKind::Digest, &self.id)?;
        match &self.subject_id {
            Some(s) => check_id(IdKind::Digest, s)?,
            None => {},
        }
        self.event_request.check()
    }
}

/// A request for approval of an event.
#[derive(Clone, Debug, PartialEq, Eq)]
pub struct TapleApprovalRequest {
    pub event_request: TapleSignedEventRequest,
    pub sn: u64,
    pub gov_version: u64,
    pub patch: String,
    pub state_hash: String,
    pub hash_prev_event: String,
    pub gov_id: String,
}

pub open spec fn approval_request_check(a: TapleApprovalRequest) -> Result<(), TapleError> {
    and_then(
        signed_event_request_check(a.event_request),
        and_then(
            id_check(IdKind::Digest, a.gov_id@),
            and_then(
                json_check(a.patch@),
                and_then(
                    id_check(IdKind::Digest, a.state_hash@),
                    id_check(IdKind::Digest, a.hash_prev_event@),
                ),
            ),
        ),
    )
}

impl TapleApprovalRequest {
    /// Checks the signed request, the governance id, the patch, the state
    /// hash and the previous event hash, in that order.
    pub fn check(&self) -> (r: Result<(), TapleError>)
        ensures
            r == approval_request_check(*self),
    {
        self.event_request.check()?;
        check_id(IdKind::Digest, &self.gov_id)?;
        check_json(&self.patch)?;
        check_id(IdKind::Digest, &self.state_hash)?;
        check_id(IdKind::Digest, &self.hash_prev_event)
    }
}

#[derive(Clone, Debug, PartialEq, Eq)]
pub struct TapleSignedApprovalRequest {
    pub content: TapleApprovalRequest,
    pub signature: TapleSignature,
}

impl TapleSignedApprovalRequest {
    /// Checks the content, then the signature.
    pub fn check(&self) -> (r: Result<(), TapleError>)
        ensures
            r == and_then(approval_request_check(self.content), signature_check(self.signature)),
    {
        self.content.check()?;
        self.signature.check()
    }
}

/// A vote on an approval request.
#[derive(Clone, Debug, PartialEq, Eq)]
pub struct TapleApprovalResponse {
    pub appr_req_hash: String,
    pub approved: bool,
}

impl TapleApprovalResponse {
    /// Checks the hash of the request voted on.
    pub fn check(&self) -> (r: Result<(), TapleError>)
        ensures
            r == id_check(IdKind::Digest, self.appr_req_hash@),
    {
        check_id(IdKind::Digest, &self.appr_req_hash)
    }
}

#[derive(Clone, Debug, PartialEq, Eq)]
pub struct TapleSignedApprovalResponse {
    pub content: TapleApprovalResponse,
    pub signature: TapleSignature,
}

impl TapleSignedApprovalResponse {
    /// Checks the content, then the signature.
    pub fn check(&self) -> (r: Result<(), TapleError>)
        ensures
            r == and_then(
                id_check(IdKind::Digest, self.content.appr_req_hash@),
                signature_check(self.signature),
            ),
    {
        self.content.check()?;
        self.signature.check()
    }
}

#[derive(Clone, Copy, Debug, PartialEq, Eq, Structural)]
pub enum TapleApprovalState {
    Pending,
    RespondedAccepted,
    RespondedRejected,
    Obsolete,
}

#[derive(Clone, Debug, PartialEq, Eq)]
pub struct TapleApprovalEntity {
    pub id: String,
    pub request: TapleSignedApprovalRequest,
    pub response: Option<TapleSignedApprovalResponse>,
    pub state: TapleApprovalState,
}

/// An event of a subject's chain, with its evaluator and approver signatures
/// keyed by signature value.
#[derive(Clone, Debug)]
pub struct TapleEvent {
    pub subject_id: String,
    pub event_request: TapleSignedEventRequest,
    pub sn: u64,
    pub gov_version: u64,
    pub patch: String,
    pub state_hash: String,
    pub eval_success: bool,
    pub appr_required: bool,
    pub approved: bool,
    pub hash_prev_event: String,
    pub evaluators: HashMap<String, TapleSignature>,
    pub approvers: HashMap<String, TapleSignature>,
}

#[derive(Clone, Debug)]
pub struct TapleSignedEvent {
    pub content: TapleEvent,
    pub signature: TapleSignature,
}

/// What a validator signed for a subject.
#[derive(Clone, Debug, PartialEq, Eq)]
pub struct ValidationProof {
    pub subject_id: String,
    pub schema_id: String,
    pub namespace: String,
    pub name: String,
    pub subject_public_key: String,
    pub governance_id: String,
    pub genesis_governance_version: u64,
    pub sn: u64,
    pub prev_event_hash: String,
    pub event_hash: String,
    pub governance_version: u64,
}

#[derive(Clone, Debug, PartialEq, Eq)]
pub struct ValidationProofAndSignatures {
    pub validation_proof: ValidationProof,
    pub signatures: Vec<TapleSignature>,
}

#[derive(Clone, Debug, PartialEq, Eq)]
pub struct SubjectAndProviders {
    pub subject_id: String,
    pub providers: Vec<String>,
}

/// Whether every text in `v` is a canonical identifier of kind `k`.
pub open spec fn all_canonical(k: IdKind, v: Seq<String>) -> bool {
    forall|i: int| 0 <= i < v.len() ==> is_canonical(k, #[trigger] v[i]@)
}

/// The error for the inputs of a pre-authorisation: the first provider that
/// is not a canonical key, else the subject id when it is not a canonical
/// digest.
pub open spec fn preauthorize_check(subject_id: Seq<char>, providers: Seq<String>) -> Result<
    (),
    TapleError,
> {
    if !all_canonical(IdKind::Key, providers) {
        Err(TapleError::KeyIdentifierGenerationFailed)
    } else {
        id_check(IdKind::Digest, subject_id)
    }
}

/// Checks the inputs of a pre-authorisation before the engine is called.
pub fn check_preauthorize(subject_id: &String, providers: &Vec<String>) -> (r: Result<
    (),
    TapleError,
>)
    ensures
        r == preauthorize_check(subject_id@, providers@),
{
    let mut i: usize = 0;
    while i < providers.len()
        invariant
            i <= providers@.len(),
            forall|j: int| 0 <= j < i ==> is_canonical(IdKind::Key, #[trigger] providers@[j]@),
        decreases providers@.len() - i,
    {
        if !CanonicalId::is_valid(IdKind::Key, providers[i].as_str()) {
            return Err(TapleError::KeyIdentifierGenerationFailed);
        }
        i = i + 1;
    }
    check_id(IdKind::Digest, subject_id)
}

/// The key scheme named by `s`.
pub open spec fn key_derivator_named(s: Seq<char>) -> Result<TapleKeyDerivator, TapleError> {
    if s == "Ed25519"@ {
        Ok(TapleKeyDerivator::Ed25519)
    } else if s == "Secp256k1"@ {
        Ok(TapleKeyDerivator::Secp256k1)
    } else {
        Err(TapleError::InvalidKeyDerivator)
    }
}

/// Reads the name of a key scheme; any other text is `InvalidKeyDerivator`.
pub fn parse_key_derivator(s: &str) -> (r: Result<TapleKeyDerivator, TapleError>)
    ensures
        r == key_derivator_named(s@),
{
    let t = String::from_str(s);
    if t == String::from_str("Ed25519") {
        Ok(TapleKeyDerivator::Ed25519)
    } else if t == String::from_str("Secp256k1") {
        Ok(TapleKeyDerivator::Secp256k1)
    } else {
        Err(TapleError::InvalidKeyDerivator)
    }
}

/// Lower-case hexadecimal digit of a value below 16.
pub open spec fn hex_digit(v: int) -> char {
    if v < 10 {
        (48 + v) as char
    } else {
        (87 + v) as char
    }
}

/// Lower-case hexadecimal text of `b`, two digits per byte, high nibble first.
pub open spec fn hex_of(b: Seq<u8>) -> Seq<char>
    decreases b.len(),
{
    if b.len() == 0 {
        Seq::empty()
    } else {
        seq![hex_digit(b[0] as int / 16), hex_digit(b[0] as int % 16)] + hex_of(
            b.subrange(1, b.len() as int),
        )
    }
}

/// Relies on hex::encode: two lower-case digits for each byte, high nibble
/// first.
#[verifier::external_body]
fn hex_encode(b: &Vec<u8>) -> (r: String)
    ensures
        r@ == hex_of(b@),
{
    hex::encode(b)
}

/// What the foreign caller supplies to start a node.
#[derive(Clone, Debug, PartialEq, Eq)]
pub struct TapleSettings {
    pub listen_addr: Vec<String>,
    pub key_derivator: TapleKeyDerivator,
    pub private_key: Vec<u8>,
    pub known_nodes: Vec<String>,
}

impl TapleSettings {
    /// The private key as the engine's settings hold it: lower-case hex.
    pub fn secret_key_hex(&self) -> (r: String)
        ensures
            r@ == hex_of(self.private_key@),
    {
        hex_encode(&self.private_key)
    }
}

} // verus!
