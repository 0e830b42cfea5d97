//! The aggregation relayer's wire types and the submission protocol: the
//! request that is sent, the check on its answer and the polling state machine.

use vstd::prelude::*;

verus! {

/// Seconds to wait between two status queries.
pub const POLL_INTERVAL_SECONDS: u64 = 20;

/// The body of a proof submission.
#[derive(Clone, Debug)]
pub struct RelayerSubmitRequest {
    pub proof_type: String,
    pub vk_registered: bool,
    pub chain_id: u32,
    pub proof_options: ProofOptions,
    pub proof_data: ProofData,
}

#[derive(Clone, Debug)]
pub struct ProofOptions {
    pub version: String,
}

#[derive(Clone, Debug)]
pub struct ProofData {
    pub proof: String,
    pub public_signals: String,
    pub vk: String,
}

/// The relayer's answer to a submission.
#[derive(Clone, Debug)]
pub struct RelayerSubmitResponse {
    pub job_id: String,
    pub optimistic_verify: String,
}

/// The relayer's answer to a status query.
#[derive(Clone, Debug)]
pub struct RelayerStatusResponse {
    pub job_id: String,
    pub status: String,
    pub status_id: u32,
    pub tx_hash: Option<String>,
    pub block_hash: Option<String>,
    pub aggregation_id: Option<u32>,
    pub aggregation_details: Option<AggregationDetails>,
}

#[derive(Clone, Debug)]
pub struct AggregationDetails {
    pub receipt: String,
    pub receipt_block_hash: String,
    pub root: String,
    pub leaf: String,
    pub leaf_index: u32,
    pub number_of_leaves: u32,
    pub merkle_proof: Vec<String>,
}

/// Why a proof was not anchored.
#[derive(Clone, Debug, PartialEq, Eq)]
pub enum RelayerError {
    /// No relayer credential is configured.
    NotConfigured,
    /// The relayer's own check of the submitted proof did not succeed.
    SubmissionRejected,
    /// The relayer reported the job as failed.
    SubmissionFailed,
    /// The job reached no terminal state within the allowed number of queries.
    PollExhausted,
    /// A request to the relayer failed in transport, with its detail.
    Transport(String),
}

/// What an anchored proof is known by.
#[derive(Clone, Debug)]
pub struct AggregationOutcome {
    pub tx_hash: Option<String>,
    pub block_hash: Option<String>,
    pub aggregation_id: Option<u32>,
}

/// What to do after a status query.
#[derive(Clone, Debug)]
pub enum PollAction {
    /// Wait this many seconds, then query again.
    Wait { seconds: u64 },
    /// The job is aggregated.
    Finish(AggregationOutcome),
    /// Polling ends without anchoring.
    Stop(RelayerError),
}

/// Counts the status queries of one job.
#[derive(Clone, Copy, Debug, PartialEq, Eq)]
pub struct PollTracker {
    pub attempts: u32,
    pub max_attempts: u32,
}

/// The submission request for a proof, its journal and the program identity.
pub fn build_submit_request(proof: String, journal: String, image_id: String, chain_id: u32) -> (r:
    RelayerSubmitRequest)
    ensures
        r.proof_type@ == "risc0"@,
        r.vk_registered,
        r.chain_id == chain_id,
        r.proof_options.version@ == "V2_3"@,
        r.proof_data.proof == proof,
        r.proof_data.public_signals == journal,
        r.proof_data.vk == image_id,
{
    RelayerSubmitRequest {
        proof_type: "risc0".to_owned(),
        vk_registered: true,
        chain_id,
        proof_options: ProofOptions { version: "V2_3".to_owned() },
        proof_data: ProofData { proof, public_signals: journal, vk: image_id },
    }
}

/// The address to which a proof is submitted.
pub fn submit_url(base: &str, api_key: &str) -> (r: String)
    ensures
        r@ == base@ + "/submit-proof/"@ + api_key@,
{
    let mut url = base.to_owned();
    url.append("/submit-proof/");
    url.append(api_key);
    url
}

/// The address at which a job's status is queried.
pub fn status_url(base: &str, api_key: &str, job_id: &str) -> (r: String)
    ensures
        r@ == base@ + "/job-status/"@ + api_key@ + "/"@ + job_id@,
{
    let mut url = base.to_owned();
    url.append("/job-status/");
    url.append(api_key);
    url.append("/");
    url.append(job_id);
    url
}

/// The job to poll for, where the relayer's own check succeeded; no polling
/// begins otherwise.
pub fn accept_submission(response: RelayerSubmitResponse) -> (r: Result<String, RelayerError>)
    ensures
        response.optimistic_verify@ == "success"@ ==> r == Ok::<String, RelayerError>(
            response.job_id,
        ),
        response.optimistic_verify@ != "success"@ ==> r == Err::<String, RelayerError>(
            RelayerError::SubmissionRejected,
        ),
{
    let success = "success".to_owned();
    if response.optimistic_verify == success {
        Ok(response.job_id)
    } else {
        Err(RelayerError::SubmissionRejected)
    }
}

/// The action that follows a status query, the queries made so far counted.
pub open spec fn poll_action(t: PollTracker, s: RelayerStatusResponse, a: PollAction) -> bool {
    if s.status@ == "Aggregated"@ {
        a == PollAction::Finish(
            AggregationOutcome {
                tx_hash: s.tx_hash,
                block_hash: s.block_hash,
                aggregation_id: s.aggregation_id,
            },
        )
    } else if s.status@ == "Failed"@ {
        a == PollAction::Stop(RelayerError::SubmissionFailed)
    } else if t.attempts < t.max_attempts {
        a == (PollAction::Wait { seconds: POLL_INTERVAL_SECONDS })
    } else {
        a == PollAction::Stop(RelayerError::PollExhausted)
    }
}

/// Whether a status ends polling.
pub open spec fn is_terminal(s: RelayerStatusResponse) -> bool {
    s.status@ == "Aggregated"@ || s.status@ == "Failed"@
}

/// A run of status queries as `observe` makes them: `trackers[i]` before the
/// query that saw `statuses[i]`, `trackers[i + 1]` after it, and `actions[i]`
/// what followed it.
pub open spec fn poll_run(
    statuses: Seq<RelayerStatusResponse>,
    trackers: Seq<PollTracker>,
    actions: Seq<PollAction>,
) -> bool {
    &&& trackers.len() == statuses.len() + 1
    &&& actions.len() == statuses.len()
    &&& forall|i: int|
        0 <= i < statuses.len() ==> {
            &&& trackers[i + 1].attempts == trackers[i].attempts + 1
            &&& trackers[i + 1].max_attempts == trackers[i].max_attempts
            &&& poll_action(trackers[i + 1], #[trigger] statuses[i], actions[i])
        }
}

proof fn lemma_run_counts(
    statuses: Seq<RelayerStatusResponse>,
    trackers: Seq<PollTracker>,
    actions: Seq<PollAction>,
    i: int,
)
    requires
        poll_run(statuses, trackers, actions),
        0 <= i <= statuses.len(),
    ensures
        trackers[i].attempts == trackers[0].attempts + i,
        trackers[i].max_attempts == trackers[0].max_attempts,
    decreases i,
{
    if i > 0 {
        lemma_run_counts(statuses, trackers, actions, i - 1);
        let _ = statuses[i - 1];
    }
}

/// Polling through statuses none of which is terminal and then a terminal
/// one, with queries to spare: each query but the last is followed by a wait
/// of the polling interval, and the last ends polling, with
/// `SubmissionFailed` on `Failed` and with the job's hashes on `Aggregated`.
pub proof fn lemma_poll_run(
    statuses: Seq<RelayerStatusResponse>,
    trackers: Seq<PollTracker>,
    actions: Seq<PollAction>,
)
    requires
        poll_run(statuses, trackers, actions),
        statuses.len() > 0,
        trackers[0].attempts + statuses.len() <= trackers[0].max_attempts,
        forall|i: int| 0 <= i < statuses.len() - 1 ==> !is_terminal(#[trigger] statuses[i]),
        is_terminal(statuses.last()),
    ensures
        forall|i: int|
            0 <= i < statuses.len() - 1 ==> #[trigger] actions[i] == (PollAction::Wait {
                seconds: POLL_INTERVAL_SECONDS,
            }),
        statuses.last().status@ == "Failed"@ ==> actions.last() == PollAction::Stop(
            RelayerError::SubmissionFailed,
        ),
        statuses.last().status@ == "Aggregated"@ ==> actions.last() == PollAction::Finish(
            AggregationOutcome {
                tx_hash: statuses.last().tx_hash,
                block_hash: statuses.last().block_hash,
                aggregation_id: statuses.last().aggregation_id,
            },
        ),
{
    reveal_strlit("Failed");
    reveal_strlit("Aggregated");
    assert("Failed"@[0] != "Aggregated"@[0]);
    let n = statuses.len() as int;
    assert forall|i: int| 0 <= i < n - 1 implies #[trigger] actions[i] == (PollAction::Wait {
        seconds: POLL_INTERVAL_SECONDS,
    }) by {
        lemma_run_counts(statuses, trackers, actions, i + 1);
        let _ = statuses[i];
    }
    let _ = statuses[n - 1];
}

impl PollTracker {
    /// A tracker that allows `max_attempts` queries.
    pub fn new(max_attempts: u32) -> (r: PollTracker)
        requires
            max_attempts > 0,
        ensures
            r.attempts == 0,
            r.max_attempts == max_attempts,
    {
        PollTracker { attempts: 0, max_attempts }
    }

    /// Whether another query is allowed.
    pub open spec fn can_poll(self) -> bool {
        self.attempts < self.max_attempts
    }

    /// Counts one status query and decides what follows it: success on
    /// `Aggregated`, failure on `Failed`, else a wait while queries remain.
    pub fn observe(&mut self, status: RelayerStatusResponse) -> (r: PollAction)
        requires
            old(self).can_poll(),
        ensures
            final(self).attempts == old(self).attempts + 1,
            final(self).max_attempts == old(self).max_attempts,
            poll_action(*final(self), status, r),
            r is Wait ==> final(self).can_poll(),
    {
        self.attempts = self.attempts + 1;
        let aggregated = "Aggregated".to_owned();
        let failed = "Failed".to_owned();
        if status.status == aggregated {
            PollAction::Finish(
                AggregationOutcome {
                    tx_hash: status.tx_hash,
                    block_hash: status.block_hash,
                    aggregation_id: status.aggregation_id,
                },
            )
        } else if status.status == failed {
            PollAction::Stop(RelayerError::SubmissionFailed)
        } else if self.attempts < self.max_attempts {
            PollAction::Wait { seconds: POLL_INTERVAL_SECONDS }
        } else {
            PollAction::Stop(RelayerError::PollExhausted)
        }
    }
}

/// The human-readable text of a relayer error.
pub open spec fn relayer_error_text(e: RelayerError) -> Seq<char> {
    match e {
        RelayerError::NotConfigured => "relayer credential is not configured"@,
        RelayerError::SubmissionRejected => "relayer rejected the proof"@,
        RelayerError::SubmissionFailed => "relayer job failed"@,
        RelayerError::PollExhausted => "relayer job did not finish in time"@,
        RelayerError::Transport(d) => "relayer request failed: "@ + d@,
    }
}

impl RelayerError {
    /// The human-readable text of this error.
    pub fn message(&self) -> (r: String)
        ensures
            r@ == relayer_error_text(*self),
    {
        match self {
            RelayerError::NotConfigured => "relayer credential is not configured".to_owned(),
            RelayerError::SubmissionRejected => "relayer rejected the proof".to_owned(),
            RelayerError::SubmissionFailed => "relayer job failed".to_owned(),
            RelayerError::PollExhausted => "relayer job did not finish in time".to_owned(),
            RelayerError::Transport(d) => {
                let mut text = "relayer request failed: ".to_owned();
                text.append(d.as_str());
                text
            },
        }
    }
}

} // verus!
