//! Assembly of the answer to a verification request: the program identity as
//! text, the check of the committed verdict against the trusted one, and the
//! response, which keeps a usable proof even where anchoring failed.

use crate::hexcode::{encode_hex, hex_encoded};
use crate::relayer::{relayer_error_text, AggregationOutcome, RelayerError};
use crate::request::{request_error_text, RequestError};
use crate::session::{evaluate_session, judged, le_bytes, push_le, GameSession, VerificationResult};
use vstd::prelude::*;

verus! {

/// Why a request produced no proof.
#[derive(Clone, Debug, PartialEq, Eq)]
pub enum ServiceError {
    /// The request did not canonicalize.
    InvalidRequest(RequestError),
    /// The record could not be loaded into the prover, with its detail.
    EnvironmentBuildFailed(String),
    /// The prover aborted, with its detail.
    ProvingFailed(String),
    /// The committed output is not a verdict, with its detail.
    OutputDecodeFailed(String),
    /// The receipt could not be serialized, with its detail.
    ReceiptEncodeFailed(String),
    /// The proof did not verify against the program identity.
    ProofInvalid,
    /// The committed verdict differs from the one judged outside the prover.
    VerdictMismatch,
}

/// The answer to a verification request.
#[derive(Clone, Debug)]
pub struct ProofResponse {
    pub success: bool,
    pub proof_verified: bool,
    pub execution_time_ms: u64,
    pub proof: Option<String>,
    pub journal: Option<String>,
    pub image_id: String,
    pub verification_result: Option<VerificationResult>,
    pub relayer_job_id: Option<String>,
    pub tx_hash: Option<String>,
    pub block_hash: Option<String>,
    pub aggregation_id: Option<u32>,
    pub error: Option<String>,
}

/// Words as bytes, each little-endian, in order.
pub open spec fn words_le(w: Seq<u32>) -> Seq<u8>
    decreases w.len(),
{
    if w.len() == 0 {
        Seq::empty()
    } else {
        words_le(w.drop_last()) + le_bytes(w.last() as nat, 4)
    }
}

/// The bytes of a program identity.
pub fn image_id_bytes(words: &[u32; 8]) -> (r: Vec<u8>)
    ensures
        r@ == words_le(words@),
{
    let mut out: Vec<u8> = Vec::new();
    let mut i: usize = 0;
    while i < 8
        invariant
            i <= 8,
            out@ == words_le(words@.subrange(0, i as int)),
        decreases 8 - i,
    {
        push_le(&mut out, words[i] as u64, 4);
        assert(words@.subrange(0, i + 1).drop_last() =~= words@.subrange(0, i as int));
        i = i + 1;
    }
    assert(words@.subrange(0, 8) =~= words@);
    out
}

/// A program identity as lower-case hex text.
pub fn image_id_hex(words: &[u32; 8]) -> (r: String)
    ensures
        r@ == hex_encoded(words_le(words@)),
{
    let bytes = image_id_bytes(words);
    encode_hex(bytes.as_slice())
}

/// Bytes as lower-case hex text after `0x`.
pub fn prefixed_hex(bytes: &[u8]) -> (r: String)
    ensures
        r@ == "0x"@ + hex_encoded(bytes@),
{
    let mut text = "0x".to_owned();
    let digits = encode_hex(bytes);
    text.append(digits.as_str());
    text
}

fn bytes_equal(a: &[u8], b: &[u8]) -> (r: bool)
    ensures
        r == (a@ == b@),
{
    if a.len() != b.len() {
        return false;
    }
    let mut i: usize = 0;
    while i < a.len()
        invariant
            a@.len() == b@.len(),
            i <= a@.len(),
            forall|j: int| 0 <= j < i ==> a@[j] == b@[j],
        decreases a@.len() - i,
    {
        if a[i] != b[i] {
            return false;
        }
        i = i + 1;
    }
    assert(a@ =~= b@);
    true
}

/// Accepts the verdict committed by the prover for `session`: only where the
/// proof verified, and only where it is the verdict that judging `session`
/// here gives.
pub fn settle_verdict(session: &GameSession, committed: VerificationResult, proof_verified: bool) -> (r:
    Result<VerificationResult, ServiceError>)
    ensures
        !proof_verified ==> r == Err::<VerificationResult, ServiceError>(ServiceError::ProofInvalid),
        proof_verified && !judged(*session, committed) ==> r == Err::<
            VerificationResult,
            ServiceError,
        >(ServiceError::VerdictMismatch),
        r is Ok <==> proof_verified && judged(*session, committed),
        r matches Ok(v) ==> v == committed,
{
    if !proof_verified {
        return Err(ServiceError::ProofInvalid);
    }
    let trusted = evaluate_session(session);
    if bytes_equal(trusted.player_address.as_slice(), committed.player_address.as_slice())
        && trusted.tokens_earned == committed.tokens_earned && bytes_equal(
        trusted.session_hash.as_slice(),
        committed.session_hash.as_slice(),
    ) && trusted.is_valid == committed.is_valid {
        Ok(committed)
    } else {
        Err(ServiceError::VerdictMismatch)
    }
}

/// The human-readable text of a service error.
pub open spec fn service_error_text(e: ServiceError) -> Seq<char> {
    match e {
        ServiceError::InvalidRequest(q) => "invalid request: "@ + request_error_text(q),
        ServiceError::EnvironmentBuildFailed(d) => "failed to create executor environment: "@ + d@,
        ServiceError::ProvingFailed(d) => "proof generation failed: "@ + d@,
        ServiceError::OutputDecodeFailed(d) => "failed to decode journal: "@ + d@,
        ServiceError::ReceiptEncodeFailed(d) => "failed to serialize receipt: "@ + d@,
        ServiceError::ProofInvalid => "proof did not verify"@,
        ServiceError::VerdictMismatch => "committed verdict differs from the judged one"@,
    }
}

fn prefixed(head: &str, detail: &str) -> (r: String)
    ensures
        r@ == head@ + detail@,
{
    let mut text = head.to_owned();
    text.append(detail);
    text
}

impl ServiceError {
    /// The human-readable text of this error.
    pub fn message(&self) -> (r: String)
        ensures
            r@ == service_error_text(*self),
    {
        match self {
            ServiceError::InvalidRequest(q) => {
                let detail = q.message();
                prefixed("invalid request: ", detail.as_str())
            },
            ServiceError::EnvironmentBuildFailed(d) => prefixed(
                "failed to create executor environment: ",
                d.as_str(),
            ),
            ServiceError::ProvingFailed(d) => prefixed("proof generation failed: ", d.as_str()),
            ServiceError::OutputDecodeFailed(d) => prefixed(
                "failed to decode journal: ",
                d.as_str(),
            ),
            ServiceError::ReceiptEncodeFailed(d) => prefixed(
                "failed to serialize receipt: ",
                d.as_str(),
            ),
            ServiceError::ProofInvalid => "proof did not verify".to_owned(),
            ServiceError::VerdictMismatch => "committed verdict differs from the judged one".to_owned(),
        }
    }
}

/// The answer where no proof could be had: no proof, no verdict, the error's text.
pub fn failure_response(error: &ServiceError, proof_verified: bool, elapsed_ms: u64, image_id: String) -> (r:
    ProofResponse)
    ensures
        !r.success,
        r.proof_verified == proof_verified,
        r.execution_time_ms == elapsed_ms,
        r.proof is None,
        r.journal is None,
        r.image_id == image_id,
        r.verification_result is None,
        r.relayer_job_id is None,
        r.tx_hash is None,
        r.block_hash is None,
        r.aggregation_id is None,
        r.error matches Some(t) && t@ == service_error_text(*error),
{
    ProofResponse {
        success: false,
        proof_verified,
        execution_time_ms: elapsed_ms,
        proof: None,
        journal: None,
        image_id,
        verification_result: None,
        relayer_job_id: None,
        tx_hash: None,
        block_hash: None,
        aggregation_id: None,
        error: Some(error.message()),
    }
}

/// The answer where a proof was had. It carries the proof and the verdict
/// whatever became of anchoring; where anchoring failed, its fields are empty
/// and the error's text is attached.
pub fn proof_response(
    verdict: VerificationResult,
    proof_verified: bool,
    elapsed_ms: u64,
    proof: String,
    journal: String,
    image_id: String,
    relayer_job_id: Option<String>,
    anchoring: Result<AggregationOutcome, RelayerError>,
) -> (r: ProofResponse)
    ensures
        r.success,
        r.proof_verified == proof_verified,
        r.execution_time_ms == elapsed_ms,
        r.proof == Some(proof),
        r.journal == Some(journal),
        r.image_id == image_id,
        r.verification_result == Some(verdict),
        r.relayer_job_id == relayer_job_id,
        anchoring matches Ok(o) ==> {
            &&& r.tx_hash == o.tx_hash
            &&& r.block_hash == o.block_hash
            &&& r.aggregation_id == o.aggregation_id
            &&& r.error is None
        },
        anchoring matches Err(e) ==> {
            &&& r.tx_hash is None
            &&& r.block_hash is None
            &&& r.aggregation_id is None
            &&& r.error matches Some(t) && t@ == relayer_error_text(e)
        },
{
    let (tx_hash, block_hash, aggregation_id, error) = match anchoring {
        Ok(o) => (o.tx_hash, o.block_hash, o.aggregation_id, None),
        Err(e) => (None, None, None, Some(e.message())),
    };
    ProofResponse {
        success: true,
        proof_verified,
        execution_time_ms: elapsed_ms,
        proof: Some(proof),
        journal: Some(journal),
        image_id,
        verification_result: Some(verdict),
        relayer_job_id,
        tx_hash,
        block_hash,
        aggregation_id,
        error,
    }
}

} // verus!
