use game_verifier::relayer::{AggregationOutcome, RelayerError};
use game_verifier::request::RequestError;
use game_verifier::response::{
    failure_response, image_id_bytes, image_id_hex, prefixed_hex, proof_response, settle_verdict,
    ServiceError,
};
use game_verifier::session::{evaluate_session, GameSession};

fn session() -> GameSession {
    GameSession {
        player_address: [0x22; 20],
        start_timestamp: 0,
        end_timestamp: 600,
        blocks_destroyed: 40,
        decisions_made: vec![1, 2],
        final_soul_tokens: 50,
        total_clicks: 300,
        version: 1,
    }
}

#[test]
fn image_id_encoding() {
    let words = [0x04030201u32, 0, 0, 0, 0, 0, 0, 0xdeadbeef];
    let b = image_id_bytes(&words);
    assert_eq!(b.len(), 32);
    assert_eq!(&b[..4], &[1, 2, 3, 4]);
    assert_eq!(&b[28..], &[0xef, 0xbe, 0xad, 0xde]);
    let h = image_id_hex(&words);
    assert!(h.starts_with("01020304"));
    assert!(h.ends_with("efbeadde"));
    assert_eq!(h.len(), 64);
}

#[test]
fn prefixed_hex_text() {
    assert_eq!(prefixed_hex(&[0x00, 0xab, 0x10]), "0x00ab10");
    assert_eq!(prefixed_hex(&[]), "0x");
}

#[test]
fn verdict_accepted_when_matching() {
    let s = session();
    let v = evaluate_session(&s);
    assert!(v.is_valid);
    assert_eq!(settle_verdict(&s, v.clone(), true), Ok(v));
}

#[test]
fn unverified_proof_is_invalid() {
    let s = session();
    let v = evaluate_session(&s);
    assert_eq!(settle_verdict(&s, v, false), Err(ServiceError::ProofInvalid));
}

#[test]
fn tampered_verdict_is_mismatch() {
    let s = session();
    let mut v = evaluate_session(&s);
    v.tokens_earned += 1;
    assert_eq!(settle_verdict(&s, v.clone(), true), Err(ServiceError::VerdictMismatch));
    let mut w = evaluate_session(&s);
    w.session_hash[31] ^= 1;
    assert_eq!(settle_verdict(&s, w, true), Err(ServiceError::VerdictMismatch));
}

#[test]
fn partial_success_keeps_proof() {
    let v = evaluate_session(&session());
    let r = proof_response(
        v.clone(),
        true,
        12,
        "0xp".to_string(),
        "0xj".to_string(),
        "ab".to_string(),
        Some("job".to_string()),
        Err(RelayerError::SubmissionFailed),
    );
    assert!(r.success);
    assert_eq!(r.proof, Some("0xp".to_string()));
    assert_eq!(r.verification_result, Some(v));
    assert_eq!(r.relayer_job_id, Some("job".to_string()));
    assert_eq!(r.tx_hash, None);
    assert_eq!(r.error, Some("relayer job failed".to_string()));
}

#[test]
fn anchored_response() {
    let v = evaluate_session(&session());
    let o = AggregationOutcome {
        tx_hash: Some("0xt".to_string()),
        block_hash: Some("0xb".to_string()),
        aggregation_id: Some(3),
    };
    let r = proof_response(v, true, 5, "p".to_string(), "j".to_string(), "i".to_string(), None, Ok(o));
    assert_eq!(r.tx_hash, Some("0xt".to_string()));
    assert_eq!(r.block_hash, Some("0xb".to_string()));
    assert_eq!(r.aggregation_id, Some(3));
    assert_eq!(r.error, None);
    assert_eq!(r.execution_time_ms, 5);
}

#[test]
fn failure_carries_no_proof() {
    let r = failure_response(
        &ServiceError::InvalidRequest(RequestError::InvalidAddress),
        false,
        1,
        "id".to_string(),
    );
    assert!(!r.success);
    assert_eq!(r.proof, None);
    assert_eq!(r.verification_result, None);
    assert_eq!(r.error, Some("invalid request: address must be 20 bytes of hex text".to_string()));
    let r = failure_response(&ServiceError::ProvingFailed("boom".to_string()), false, 1, "id".to_string());
    assert_eq!(r.error, Some("proof generation failed: boom".to_string()));
    assert_eq!(ServiceError::ProofInvalid.message(), "proof did not verify");
    assert_eq!(
        ServiceError::ReceiptEncodeFailed("io".to_string()).message(),
        "failed to serialize receipt: io"
    );
    assert_eq!(
        ServiceError::OutputDecodeFailed("eof".to_string()).message(),
        "failed to decode journal: eof"
    );
    assert_eq!(
        ServiceError::VerdictMismatch.message(),
        "committed verdict differs from the judged one"
    );
}
