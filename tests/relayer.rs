use game_verifier::relayer::{
    accept_submission, build_submit_request, status_url, submit_url, PollAction, PollTracker,
    RelayerError, RelayerStatusResponse, RelayerSubmitResponse, POLL_INTERVAL_SECONDS,
};

fn status(s: &str) -> RelayerStatusResponse {
    let done = s == "Aggregated";
    RelayerStatusResponse {
        job_id: "job-1".to_string(),
        status: s.to_string(),
        status_id: 0,
        tx_hash: if done { Some("0xabc".to_string()) } else { None },
        block_hash: if done { Some("0xdef".to_string()) } else { None },
        aggregation_id: if done { Some(7) } else { None },
        aggregation_details: None,
    }
}

#[test]
fn pending_pending_aggregated() {
    let mut t = PollTracker::new(10);
    let mut waits = 0;
    let mut outcome = None;
    for s in ["Pending", "Pending", "Aggregated"] {
        match t.observe(status(s)) {
            PollAction::Wait { seconds } => {
                assert_eq!(seconds, POLL_INTERVAL_SECONDS);
                assert_eq!(seconds, 20);
                waits += 1;
            }
            PollAction::Finish(o) => outcome = Some(o),
            PollAction::Stop(e) => panic!("unexpected stop: {:?}", e),
        }
    }
    assert_eq!(waits, 2);
    let o = outcome.unwrap();
    assert_eq!(o.tx_hash, Some("0xabc".to_string()));
    assert_eq!(o.block_hash, Some("0xdef".to_string()));
    assert_eq!(o.aggregation_id, Some(7));
    assert_eq!(t.attempts, 3);
}

#[test]
fn failed_ends_polling() {
    let mut t = PollTracker::new(10);
    let mut waits = 0;
    let mut stopped = None;
    for s in ["Pending", "Failed"] {
        match t.observe(status(s)) {
            PollAction::Wait { .. } => waits += 1,
            PollAction::Finish(_) => panic!("unexpected finish"),
            PollAction::Stop(e) => stopped = Some(e),
        }
    }
    assert_eq!(waits, 1);
    assert_eq!(stopped, Some(RelayerError::SubmissionFailed));
}

#[test]
fn polling_is_bounded() {
    let mut t = PollTracker::new(2);
    assert!(matches!(t.observe(status("Pending")), PollAction::Wait { .. }));
    assert!(matches!(t.observe(status("Queued")), PollAction::Stop(RelayerError::PollExhausted)));
}

#[test]
fn submission_accepted_only_on_success() {
    let ok = RelayerSubmitResponse {
        job_id: "job-9".to_string(),
        optimistic_verify: "success".to_string(),
    };
    assert_eq!(accept_submission(ok), Ok("job-9".to_string()));
    let bad = RelayerSubmitResponse {
        job_id: "job-9".to_string(),
        optimistic_verify: "failed".to_string(),
    };
    assert_eq!(accept_submission(bad), Err(RelayerError::SubmissionRejected));
}

#[test]
fn submit_request_fields() {
    let r = build_submit_request("0xp".to_string(), "0xj".to_string(), "0xi".to_string(), 845320009);
    assert_eq!(r.proof_type, "risc0");
    assert!(r.vk_registered);
    assert_eq!(r.chain_id, 845320009);
    assert_eq!(r.proof_options.version, "V2_3");
    assert_eq!(r.proof_data.proof, "0xp");
    assert_eq!(r.proof_data.public_signals, "0xj");
    assert_eq!(r.proof_data.vk, "0xi");
}

#[test]
fn relayer_urls() {
    assert_eq!(submit_url("https://r/api", "KEY"), "https://r/api/submit-proof/KEY");
    assert_eq!(status_url("https://r/api", "KEY", "j1"), "https://r/api/job-status/KEY/j1");
}

#[test]
fn relayer_error_messages() {
    assert_eq!(RelayerError::SubmissionFailed.message(), "relayer job failed");
    assert_eq!(
        RelayerError::Transport("timeout".to_string()).message(),
        "relayer request failed: timeout"
    );
    assert_eq!(RelayerError::NotConfigured.message(), "relayer credential is not configured");
    assert_eq!(RelayerError::SubmissionRejected.message(), "relayer rejected the proof");
    assert_eq!(RelayerError::PollExhausted.message(), "relayer job did not finish in time");
}

#[test]
fn no_wait_after_failed() {
    let mut t = PollTracker::new(90);
    let mut actions = Vec::new();
    for s in ["Queued", "Pending", "Pending", "Failed"] {
        actions.push(t.observe(status(s)));
    }
    let waits = actions.iter().filter(|a| matches!(a, PollAction::Wait { .. })).count();
    assert_eq!(waits, 3);
    assert!(matches!(actions[3], PollAction::Stop(RelayerError::SubmissionFailed)));
}
