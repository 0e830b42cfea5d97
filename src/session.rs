//! The session record, the rules that judge it and its content digest.

use sha2::Digest;
use vstd::prelude::*;

verus! {

/// The only rule set that this engine knows.
pub const RULE_VERSION: u8 = 1;

/// Shortest accepted session, in seconds.
pub const MIN_DURATION: u64 = 10;

/// Longest accepted session, in seconds.
pub const MAX_DURATION: u64 = 3600;

/// Largest number of decisions in one session.
pub const MAX_DECISIONS: usize = 25;

/// Largest decision identifier.
pub const MAX_DECISION_ID: u8 = 50;

/// Most clicks per second.
pub const MAX_CLICKS_PER_SECOND: u64 = 10;

/// The canonical record of one played session.
#[derive(Clone, Debug, PartialEq, Eq, Hash)]
pub struct GameSession {
    pub player_address: [u8; 20],
    pub start_timestamp: u64,
    pub end_timestamp: u64,
    pub blocks_destroyed: u32,
    pub decisions_made: Vec<u8>,
    pub final_soul_tokens: u64,
    pub total_clicks: u32,
    pub version: u8,
}

/// The verdict on one session.
#[derive(Clone, Debug, PartialEq, Eq)]
pub struct VerificationResult {
    pub player_address: [u8; 20],
    pub tokens_earned: u64,
    pub session_hash: [u8; 32],
    pub is_valid: bool,
}

/// The time bonus of a session that lasted `d` seconds: one per minute, at most 60.
pub open spec fn time_bonus(d: int) -> int {
    if d / 60 < 60 {
        d / 60
    } else {
        60
    }
}

/// The most tokens that a session can have earned.
pub open spec fn max_tokens(s: GameSession) -> int {
    s.blocks_destroyed as int + 10 * s.decisions_made@.len() + time_bonus(
        s.end_timestamp - s.start_timestamp,
    )
}

pub open spec fn decisions_in_range(d: Seq<u8>) -> bool {
    forall|i: int| 0 <= i < d.len() ==> d[i] <= MAX_DECISION_ID
}

/// All the rules, for a session of `d` seconds.
pub open spec fn rules_hold(s: GameSession, d: int) -> bool {
    &&& s.version == RULE_VERSION
    &&& MIN_DURATION <= d <= MAX_DURATION
    &&& s.final_soul_tokens <= max_tokens(s)
    &&& s.total_clicks <= d * MAX_CLICKS_PER_SECOND
    &&& s.decisions_made@.len() <= MAX_DECISIONS
    &&& decisions_in_range(s.decisions_made@)
    &&& s.total_clicks / 10 <= s.blocks_destroyed <= s.total_clicks * 2
}

/// A session is valid when it ends no earlier than it starts and keeps every rule.
pub open spec fn session_valid(s: GameSession) -> bool {
    s.start_timestamp <= s.end_timestamp && rules_hold(s, s.end_timestamp - s.start_timestamp)
}

/// The tokens granted to a session.
pub open spec fn granted(s: GameSession) -> int {
    if session_valid(s) {
        s.final_soul_tokens as int
    } else {
        0
    }
}

/// The result of judging `s` is `r`.
pub open spec fn judged(s: GameSession, r: VerificationResult) -> bool {
    &&& r.player_address@ == s.player_address@
    &&& r.is_valid == session_valid(s)
    &&& r.tokens_earned == granted(s)
    &&& r.session_hash@ == session_digest(s)
}

/// Two records that hold the same values.
pub open spec fn same_record(a: GameSession, b: GameSession) -> bool {
    &&& a.player_address@ == b.player_address@
    &&& a.start_timestamp == b.start_timestamp
    &&& a.end_timestamp == b.end_timestamp
    &&& a.blocks_destroyed == b.blocks_destroyed
    &&& a.decisions_made@ == b.decisions_made@
    &&& a.final_soul_tokens == b.final_soul_tokens
    &&& a.total_clicks == b.total_clicks
    &&& a.version == b.version
}

/// The `n` low bytes of `x`, least significant first.
pub open spec fn le_bytes(x: nat, n: nat) -> Seq<u8>
    decreases n,
{
    if n == 0 {
        Seq::empty()
    } else {
        seq![(x % 256) as u8] + le_bytes(x / 256, (n - 1) as nat)
    }
}

/// The canonical byte encoding of a record: every field in a fixed order,
/// integers little-endian, the decisions preceded by their count.
pub open spec fn encode_session(s: GameSession) -> Seq<u8> {
    s.player_address@ + le_bytes(s.start_timestamp as nat, 8) + le_bytes(
        s.end_timestamp as nat,
        8,
    ) + le_bytes(s.blocks_destroyed as nat, 4) + le_bytes(s.final_soul_tokens as nat, 8)
        + le_bytes(s.decisions_made@.len(), 8) + s.decisions_made@ + le_bytes(
        s.total_clicks as nat,
        4,
    ) + seq![s.version]
}

/// The SHA-256 digest of a byte sequence.
pub uninterp spec fn sha256_of(b: Seq<u8>) -> Seq<u8>;

/// The content digest of a record.
pub open spec fn session_digest(s: GameSession) -> Seq<u8> {
    sha256_of(encode_session(s))
}

/// Relies on sha2's `Sha256::digest`: the 32-byte SHA-256 digest of the input.
#[verifier::external_body]
fn sha256(b: &Vec<u8>) -> (r: [u8; 32])
    ensures
        r@ == sha256_of(b@),
{
    sha2::Sha256::digest(b.as_slice()).into()
}

/// Appends the `n` low bytes of `x` to `out`, least significant first.
pub(crate) fn push_le(out: &mut Vec<u8>, x: u64, n: usize)
    requires
        n <= 8,
    ensures
        final(out)@ == old(out)@ + le_bytes(x as nat, n as nat),
{
    let mut v: u64 = x;
    let mut i: usize = 0;
    while i < n
        invariant
            i <= n,
            out@ + le_bytes(v as nat, (n - i) as nat) == old(out)@ + le_bytes(x as nat, n as nat),
        decreases n - i,
    {
        let ghost before = out@;
        let ghost w = v;
        let b: u8 = (v % 256) as u8;
        assert(le_bytes(w as nat, (n - i) as nat) == seq![b] + le_bytes(
            (w / 256) as nat,
            (n - i - 1) as nat,
        ));
        out.push(b);
        v = v / 256;
        i = i + 1;
        assert(out@ + le_bytes(v as nat, (n - i) as nat) =~= before + (seq![b] + le_bytes(
            v as nat,
            (n - i) as nat,
        )));
    }
    assert(le_bytes(v as nat, 0) == Seq::<u8>::empty());
    assert(out@ + Seq::<u8>::empty() == out@);
}

/// The most tokens that `session` can have earned: one per block destroyed,
/// ten per decision, and one per minute of play up to sixty.
pub fn calculate_max_possible_tokens(session: &GameSession) -> (r: u64)
    requires
        session.start_timestamp <= session.end_timestamp,
        max_tokens(*session) <= u64::MAX,
    ensures
        r == max_tokens(*session),
{
    let base_tokens = session.blocks_destroyed as u64;
    let decision_bonus = session.decisions_made.len() as u64 * 10;
    let duration = session.end_timestamp - session.start_timestamp;
    let minutes = duration / 60;
    let time_bonus = if minutes < 60 {
        minutes
    } else {
        60
    };
    base_tokens + decision_bonus + time_bonus
}

/// Whether `session`, which lasted `duration_seconds`, keeps every rule.
pub fn verify_game_session(session: &GameSession, duration_seconds: u64) -> (r: bool)
    requires
        session.start_timestamp <= session.end_timestamp,
        duration_seconds == session.end_timestamp - session.start_timestamp,
    ensures
        r == rules_hold(*session, duration_seconds as int),
{
    if session.version != RULE_VERSION {
        return false;
    }
    if duration_seconds < MIN_DURATION || duration_seconds > MAX_DURATION {
        return false;
    }
    // The count is checked before the bound, which it keeps within range.
    if session.decisions_made.len() > MAX_DECISIONS {
        return false;
    }
    let max_possible_tokens = calculate_max_possible_tokens(session);
    if session.final_soul_tokens > max_possible_tokens {
        return false;
    }
    let max_clicks = duration_seconds * MAX_CLICKS_PER_SECOND;
    if session.total_clicks as u64 > max_clicks {
        return false;
    }
    let mut i: usize = 0;
    while i < session.decisions_made.len()
        invariant
            i <= session.decisions_made@.len(),
            forall|j: int| 0 <= j < i ==> session.decisions_made@[j] <= MAX_DECISION_ID,
        decreases session.decisions_made@.len() - i,
    {
        if session.decisions_made[i] > MAX_DECISION_ID {
            return false;
        }
        i = i + 1;
    }
    let min_blocks = session.total_clicks / 10;
    let max_blocks = session.total_clicks as u64 * 2;
    if session.blocks_destroyed < min_blocks || session.blocks_destroyed as u64 > max_blocks {
        return false;
    }
    true
}

/// The canonical byte encoding of `session`.
pub fn encode_session_bytes(session: &GameSession) -> (r: Vec<u8>)
    ensures
        r@ == encode_session(*session),
{
    let mut out: Vec<u8> = Vec::new();
    let mut i: usize = 0;
    while i < 20
        invariant
            i <= 20,
            out@ == session.player_address@.subrange(0, i as int),
        decreases 20 - i,
    {
        out.push(session.player_address[i]);
        i = i + 1;
        assert(out@ =~= session.player_address@.subrange(0, i as int));
    }
    assert(out@ =~= session.player_address@);
    push_le(&mut out, session.start_timestamp, 8);
    push_le(&mut out, session.end_timestamp, 8);
    push_le(&mut out, session.blocks_destroyed as u64, 4);
    push_le(&mut out, session.final_soul_tokens, 8);
    push_le(&mut out, session.decisions_made.len() as u64, 8);
    let ghost head = out@;
    let mut j: usize = 0;
    while j < session.decisions_made.len()
        invariant
            j <= session.decisions_made@.len(),
            out@ == head + session.decisions_made@.subrange(0, j as int),
        decreases session.decisions_made@.len() - j,
    {
        out.push(session.decisions_made[j]);
        j = j + 1;
        assert(out@ =~= head + session.decisions_made@.subrange(0, j as int));
    }
    assert(session.decisions_made@.subrange(0, j as int) =~= session.decisions_made@);
    push_le(&mut out, session.total_clicks as u64, 4);
    out.push(session.version);
    out
}

/// The content digest of `session`: SHA-256 over its canonical encoding.
pub fn calculate_session_hash(session: &GameSession) -> (r: [u8; 32])
    ensures
        r@ == session_digest(*session),
{
    let bytes = encode_session_bytes(session);
    sha256(&bytes)
}

/// Judges `session`: its verdict, the tokens it is granted and its digest.
/// A session that ends before it starts is invalid.
pub fn evaluate_session(session: &GameSession) -> (r: VerificationResult)
    ensures
        judged(*session, r),
        !r.is_valid ==> r.tokens_earned == 0,
{
    let is_valid = if session.start_timestamp <= session.end_timestamp {
        let duration = session.end_timestamp - session.start_timestamp;
        verify_game_session(session, duration)
    } else {
        false
    };
    VerificationResult {
        player_address: session.player_address,
        tokens_earned: if is_valid {
            session.final_soul_tokens
        } else {
            0
        },
        session_hash: calculate_session_hash(session),
        is_valid,
    }
}

/// Judging is deterministic: two records that hold the same values are given
/// the same verdict, the same reward and the same digest.
pub proof fn lemma_judgment_deterministic(
    a: GameSession,
    b: GameSession,
    ra: VerificationResult,
    rb: VerificationResult,
)
    requires
        same_record(a, b),
        judged(a, ra),
        judged(b, rb),
    ensures
        ra.player_address@ == rb.player_address@,
        ra.is_valid == rb.is_valid,
        ra.tokens_earned == rb.tokens_earned,
        ra.session_hash@ == rb.session_hash@,
{
    assert(encode_session(a) == encode_session(b));
}

/// The rules are a function of the record's values alone: two records that
/// hold the same values, judged over the same duration, are judged alike.
pub proof fn lemma_rules_deterministic(a: GameSession, b: GameSession, d: int)
    requires
        same_record(a, b),
    ensures
        rules_hold(a, d) == rules_hold(b, d),
        max_tokens(a) == max_tokens(b),
{
}

/// A record under any rule version but the current one is invalid.
pub proof fn lemma_unknown_version_invalid(s: GameSession)
    requires
        s.version != RULE_VERSION,
    ensures
        !session_valid(s),
        forall|d: int| !rules_hold(s, d),
{
}

/// An invalid record is granted nothing, and a record granted anything is valid.
pub proof fn lemma_invalid_earns_nothing(s: GameSession, r: VerificationResult)
    requires
        judged(s, r),
    ensures
        !r.is_valid ==> r.tokens_earned == 0,
        r.tokens_earned > 0 ==> r.is_valid,
{
}

/// `256` to the power `n`.
pub open spec fn pow256(n: nat) -> nat
    decreases n,
{
    if n == 0 {
        1
    } else {
        256 * pow256((n - 1) as nat)
    }
}

proof fn lemma_le_bytes_len(x: nat, n: nat)
    ensures
        le_bytes(x, n).len() == n,
    decreases n,
{
    if n > 0 {
        lemma_le_bytes_len(x / 256, (n - 1) as nat);
    }
}

proof fn lemma_le_bytes_injective(x: nat, y: nat, n: nat)
    requires
        x < pow256(n),
        y < pow256(n),
        le_bytes(x, n) == le_bytes(y, n),
    ensures
        x == y,
    decreases n,
{
    if n > 0 {
        let m = (n - 1) as nat;
        let p = pow256(m);
        assert(le_bytes(x, n)[0] == (x % 256) as u8);
        assert(le_bytes(y, n)[0] == (y % 256) as u8);
        lemma_le_bytes_len(x / 256, m);
        lemma_le_bytes_len(y / 256, m);
        assert(le_bytes(x / 256, m) =~= le_bytes(x, n).subrange(1, n as int));
        assert(le_bytes(y / 256, m) =~= le_bytes(y, n).subrange(1, n as int));
        assert(x / 256 < p) by (nonlinear_arith)
            requires
                x < 256 * p,
        ;
        assert(y / 256 < p) by (nonlinear_arith)
            requires
                y < 256 * p,
        ;
        lemma_le_bytes_injective(x / 256, y / 256, m);
        assert(x == 256 * (x / 256) + x % 256);
        assert(y == 256 * (y / 256) + y % 256);
    }
}

/// The canonical encoding keeps every field, the decisions and their order
/// included: two records have the same encoding exactly when they hold the
/// same values.
pub proof fn lemma_encoding_injective(a: GameSession, b: GameSession)
    requires
        a.decisions_made@.len() < pow256(8),
        b.decisions_made@.len() < pow256(8),
    ensures
        encode_session(a) == encode_session(b) <==> same_record(a, b),
{
    assert(pow256(0) == 1);
    assert(pow256(1) == 0x100);
    assert(pow256(2) == 0x1_0000);
    assert(pow256(3) == 0x100_0000);
    assert(pow256(4) == 0x1_0000_0000);
    assert(pow256(5) == 0x100_0000_0000);
    assert(pow256(6) == 0x1_0000_0000_0000);
    assert(pow256(7) == 0x100_0000_0000_0000);
    assert(pow256(8) == 0x1_0000_0000_0000_0000);
    if encode_session(a) == encode_session(b) {
        let ea = encode_session(a);
        let eb = encode_session(b);
        lemma_le_bytes_len(a.start_timestamp as nat, 8);
        lemma_le_bytes_len(a.end_timestamp as nat, 8);
        lemma_le_bytes_len(a.blocks_destroyed as nat, 4);
        lemma_le_bytes_len(a.final_soul_tokens as nat, 8);
        lemma_le_bytes_len(a.decisions_made@.len(), 8);
        lemma_le_bytes_len(a.total_clicks as nat, 4);
        lemma_le_bytes_len(b.start_timestamp as nat, 8);
        lemma_le_bytes_len(b.end_timestamp as nat, 8);
        lemma_le_bytes_len(b.blocks_destroyed as nat, 4);
        lemma_le_bytes_len(b.final_soul_tokens as nat, 8);
        lemma_le_bytes_len(b.decisions_made@.len(), 8);
        lemma_le_bytes_len(b.total_clicks as nat, 4);
        assert(ea.subrange(0, 20) =~= a.player_address@);
        assert(eb.subrange(0, 20) =~= b.player_address@);
        assert(ea.subrange(20, 28) =~= le_bytes(a.start_timestamp as nat, 8));
        assert(eb.subrange(20, 28) =~= le_bytes(b.start_timestamp as nat, 8));
        lemma_le_bytes_injective(a.start_timestamp as nat, b.start_timestamp as nat, 8);
        assert(ea.subrange(28, 36) =~= le_bytes(a.end_timestamp as nat, 8));
        assert(eb.subrange(28, 36) =~= le_bytes(b.end_timestamp as nat, 8));
        lemma_le_bytes_injective(a.end_timestamp as nat, b.end_timestamp as nat, 8);
        assert(ea.subrange(36, 40) =~= le_bytes(a.blocks_destroyed as nat, 4));
        assert(eb.subrange(36, 40) =~= le_bytes(b.blocks_destroyed as nat, 4));
        lemma_le_bytes_injective(a.blocks_destroyed as nat, b.blocks_destroyed as nat, 4);
        assert(ea.subrange(40, 48) =~= le_bytes(a.final_soul_tokens as nat, 8));
        assert(eb.subrange(40, 48) =~= le_bytes(b.final_soul_tokens as nat, 8));
        lemma_le_bytes_injective(a.final_soul_tokens as nat, b.final_soul_tokens as nat, 8);
        assert(ea.subrange(48, 56) =~= le_bytes(a.decisions_made@.len(), 8));
        assert(eb.subrange(48, 56) =~= le_bytes(b.decisions_made@.len(), 8));
        lemma_le_bytes_injective(a.decisions_made@.len(), b.decisions_made@.len(), 8);
        let k: int = 56 + a.decisions_made@.len() as int;
        assert(ea.subrange(56, k) =~= a.decisions_made@);
        assert(eb.subrange(56, k) =~= b.decisions_made@);
        assert(ea.subrange(k, k + 4) =~= le_bytes(a.total_clicks as nat, 4));
        assert(eb.subrange(k, k + 4) =~= le_bytes(b.total_clicks as nat, 4));
        lemma_le_bytes_injective(a.total_clicks as nat, b.total_clicks as nat, 4);
        assert(ea[k + 4] == a.version);
        assert(eb[k + 4] == b.version);
    }
    if same_record(a, b) {
        assert(encode_session(a) == encode_session(b));
    }
}

} // verus!
