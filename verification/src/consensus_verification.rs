//! Quorum-style consensus verification: submitting evidence for
//! verification, recording verifier responses, computing the consensus
//! verdict, correlating local with upstream evidence, and caching results.
//!
//! All confidences, thresholds and percentages are fixed-point scores in
//! `0 ..= SCORE_SCALE` (`SCORE_SCALE` stands for 1.0).

use vstd::pervasive::VecAdditionalExecFns;
use vstd::prelude::*;
use vstd::string::*;

use crate::error::AgentError;
use crate::strings::{
    seq_starts_with, spec_render_score, str_eq, str_starts_with, render_score,
};
use crate::{clamp_score, new_uuid_string, ThreatEvidence, ThreatLevel, ThreatType, SCORE_SCALE};

verus! {

/// Consensus verification configuration.
#[derive(Debug, Clone, Copy, PartialEq, Eq, Structural)]
pub struct ConsensusConfig {
    /// Minimum number of verifier responses needed before a request is in
    /// progress.
    pub min_verifiers: u32,
    /// Age in seconds past which a stored request is swept away.
    pub verification_timeout: u64,
    /// Minimum reputation score for a valid verification.
    pub reputation_threshold: u64,
    /// Share of confirming responses needed for a positive verdict.
    pub consensus_threshold: u64,
    /// Maximum number of consensus attempts before giving up.
    pub max_consensus_attempts: u32,
}

impl ConsensusConfig {
    /// Thresholds are scores, so they must lie in `0 ..= SCORE_SCALE`; the
    /// timeout must fit the signed arithmetic of the cleanup sweep.
    pub open spec fn wf(&self) -> bool {
        &&& self.reputation_threshold <= SCORE_SCALE
        &&& self.consensus_threshold <= SCORE_SCALE
        &&& self.verification_timeout <= 0x7fff_ffff_ffff_ffff
    }
}

impl Default for ConsensusConfig {
    /// The documented defaults: quorum of three, a thirty-second timeout,
    /// a 0.7 reputation floor and a 0.6 consensus share.
    fn default() -> (r: Self)
        ensures
            r.min_verifiers == 3,
            r.verification_timeout == 30,
            r.reputation_threshold == 7000,
            r.consensus_threshold == 6000,
            r.max_consensus_attempts == 5,
            r.wf(),
    {
        ConsensusConfig {
            min_verifiers: 3,
            verification_timeout: 30,
            reputation_threshold: 7000,
            consensus_threshold: 6000,
            max_consensus_attempts: 5,
        }
    }
}

/// One verifier's judgment on a verification request.
#[derive(Debug, Clone)]
pub struct VerificationResponse {
    pub request_id: String,
    pub evidence_id: String,
    pub verifying_agent: String,
    /// True for confirmed, false for disputed.
    pub verdict: bool,
    /// Confidence of the verification, in `0 ..= SCORE_SCALE`.
    pub confidence: u64,
    /// Reason for the verdict.
    pub justification: String,
    pub timestamp: i64,
    /// Authentication tag of the verifying agent.
    pub signature: String,
}

impl VerificationResponse {
    /// Confidence is a score.
    pub open spec fn wf(&self) -> bool {
        self.confidence <= SCORE_SCALE
    }

    /// A field-by-field copy with a known relation to the original.
    pub fn duplicate(&self) -> (r: Self)
        ensures
            r == *self,
    {
        VerificationResponse {
            request_id: self.request_id.clone(),
            evidence_id: self.evidence_id.clone(),
            verifying_agent: self.verifying_agent.clone(),
            verdict: self.verdict,
            confidence: self.confidence,
            justification: self.justification.clone(),
            timestamp: self.timestamp,
            signature: self.signature.clone(),
        }
    }
}

/// Progress of a verification request through its state machine.
#[derive(Debug, Clone, Copy, PartialEq, Eq, Structural)]
pub enum VerificationStatus {
    Pending,
    InProgress,
    Verified,
    Rejected,
    Expired,
    ConsensusReached,
    ConsensusFailed,
}

/// One round of consensus-seeking for one piece of evidence.
#[derive(Debug, Clone)]
pub struct VerificationRequest {
    pub request_id: String,
    pub evidence_id: String,
    pub evidence: ThreatEvidence,
    pub requesting_agent: String,
    pub timestamp: i64,
    /// Minimum number of verifier responses wanted.
    pub verification_threshold: u32,
    /// Agents requested to verify.
    pub verifiers: Vec<String>,
    pub responses: Vec<VerificationResponse>,
    pub status: VerificationStatus,
}

impl VerificationRequest {
    /// Every recorded response carries a score-ranged confidence, and the
    /// creation timestamp is not before the epoch.
    pub open spec fn wf(&self) -> bool {
        &&& self.timestamp >= 0
        &&& forall|i: int|
            0 <= i < self.responses@.len() ==> (#[trigger] self.responses@[i]).wf()
    }
}

/// The distilled outcome of a completed verification request.
#[derive(Debug, Clone)]
pub struct ConsensusResult {
    pub evidence_id: String,
    /// True if the threat is verified, false if disputed.
    pub consensus_verdict: bool,
    /// Mean confidence of the responses, in `0 ..= SCORE_SCALE`.
    pub confidence_score: u64,
    /// Agents that confirmed the threat, in response order.
    pub verified_by: Vec<String>,
    /// Agents that disputed the threat, in response order.
    pub disputed_by: Vec<String>,
    /// Number of responses counted.
    pub total_verifiers: usize,
    /// Share of confirming responses, in `0 ..= SCORE_SCALE`.
    pub consensus_percentage: u64,
    pub timestamp: i64,
}

/// The two results agree on every field; the agent lists are compared as
/// sequences.
pub open spec fn result_equiv(a: ConsensusResult, b: ConsensusResult) -> bool {
    &&& a.evidence_id == b.evidence_id
    &&& a.consensus_verdict == b.consensus_verdict
    &&& a.confidence_score == b.confidence_score
    &&& a.verified_by@ == b.verified_by@
    &&& a.disputed_by@ == b.disputed_by@
    &&& a.total_verifiers == b.total_verifiers
    &&& a.consensus_percentage == b.consensus_percentage
    &&& a.timestamp == b.timestamp
}

impl ConsensusResult {
    /// A field-by-field copy with a known relation to the original.
    pub fn duplicate(&self) -> (r: Self)
        ensures
            result_equiv(r, *self),
    {
        ConsensusResult {
            evidence_id: self.evidence_id.clone(),
            consensus_verdict: self.consensus_verdict,
            confidence_score: self.confidence_score,
            verified_by: crate::strings::clone_string_vec(&self.verified_by),
            disputed_by: crate::strings::clone_string_vec(&self.disputed_by),
            total_verifiers: self.total_verifiers,
            consensus_percentage: self.consensus_percentage,
            timestamp: self.timestamp,
        }
    }
}

/// A request with this id is stored.
pub open spec fn has_request(s: Seq<VerificationRequest>, id: Seq<char>) -> bool {
    exists|i: int| 0 <= i < s.len() && (#[trigger] s[i]).request_id@ == id
}

/// The index of the stored request with this id.
pub open spec fn request_index(s: Seq<VerificationRequest>, id: Seq<char>) -> int {
    choose|i: int| 0 <= i < s.len() && (#[trigger] s[i]).request_id@ == id
}

/// The stored request with this id.
pub open spec fn request_at(s: Seq<VerificationRequest>, id: Seq<char>) -> VerificationRequest {
    s[request_index(s, id)]
}

/// A result for this evidence id is cached.
pub open spec fn has_result(s: Seq<ConsensusResult>, evidence_id: Seq<char>) -> bool {
    exists|i: int| 0 <= i < s.len() && (#[trigger] s[i]).evidence_id@ == evidence_id
}

/// The index of the cached result for this evidence id.
pub open spec fn result_index(s: Seq<ConsensusResult>, evidence_id: Seq<char>) -> int {
    choose|i: int| 0 <= i < s.len() && (#[trigger] s[i]).evidence_id@ == evidence_id
}

/// The cached result for this evidence id.
pub open spec fn result_at(s: Seq<ConsensusResult>, evidence_id: Seq<char>) -> ConsensusResult {
    s[result_index(s, evidence_id)]
}

/// The engine that runs the verification protocol: a map of pending
/// requests keyed by request id, a result cache keyed by evidence id, and
/// the local agent's identity.
pub struct ConsensusEngine {
    pub config: ConsensusConfig,
    pub pending_requests: Vec<VerificationRequest>,
    pub verification_cache: Vec<ConsensusResult>,
    pub local_agent_id: String,
}

impl ConsensusEngine {
    /// Request ids are unique in the store, cached results are unique per
    /// evidence id, every stored request is well formed, and the
    /// configuration thresholds are scores.
    pub open spec fn wf(&self) -> bool {
        &&& self.config.wf()
        &&& forall|i: int, j: int|
            #![trigger self.pending_requests@[i], self.pending_requests@[j]]
            0 <= i < j < self.pending_requests@.len()
                ==> self.pending_requests@[i].request_id@
                != self.pending_requests@[j].request_id@
        &&& forall|i: int|
            0 <= i < self.pending_requests@.len() ==> (#[trigger] self.pending_requests@[i]).wf()
        &&& forall|i: int, j: int|
            #![trigger self.verification_cache@[i], self.verification_cache@[j]]
            0 <= i < j < self.verification_cache@.len()
                ==> self.verification_cache@[i].evidence_id@
                != self.verification_cache@[j].evidence_id@
    }

    /// A fresh engine with empty stores.
    pub fn new(config: ConsensusConfig, local_agent_id: String) -> (r: Self)
        requires
            config.wf(),
        ensures
            r.wf(),
            r.config == config,
            r.local_agent_id == local_agent_id,
            r.pending_requests@.len() == 0,
            r.verification_cache@.len() == 0,
    {
        ConsensusEngine {
            config,
            pending_requests: Vec::new(),
            verification_cache: Vec::new(),
            local_agent_id,
        }
    }

    /// Current configuration.
    pub fn get_config(&self) -> (r: ConsensusConfig)
        ensures
            r == self.config,
    {
        self.config
    }
}

/// The source IP is on the small built-in list of known bad addresses.
pub open spec fn is_known_threat_ip_spec(ip: Seq<char>) -> bool {
    ||| ip == "192.168.1.100"@
    ||| ip == "10.0.0.10"@
    ||| ip == "8.8.8.8"@
}

/// The confidence adjustment a severity level contributes to the local
/// verification heuristic.
pub open spec fn severity_adjustment(l: ThreatLevel) -> int {
    match l {
        ThreatLevel::Info => -1000,
        ThreatLevel::Warning => 1000,
        ThreatLevel::Critical => 2000,
        ThreatLevel::Emergency => 3000,
    }
}

/// The confidence bonus a threat category contributes to the local
/// verification heuristic.
pub open spec fn category_bonus(t: ThreatType) -> int {
    match t {
        ThreatType::IoCMatch => 1000,
        ThreatType::Malware => 2000,
        ThreatType::DDoS => 1500,
        ThreatType::APT => 2500,
        _ => 500,
    }
}

/// The local verification heuristic's confidence: a base of 0.5, raised
/// for upstream sources, adjusted by severity, raised for known bad source
/// IPs and by a category bonus, clamped into `0 ..= SCORE_SCALE`.
pub open spec fn local_confidence(e: ThreatEvidence) -> int {
    clamp_score(
        5000 + (if seq_starts_with(e.agent_id@, "upstream-"@) {
            2000int
        } else {
            0int
        }) + severity_adjustment(e.threat_level) + (if is_known_threat_ip_spec(e.source_ip@) {
            3000int
        } else {
            0int
        }) + category_bonus(e.threat_type),
    )
}

/// This node's own judgment is positive exactly when the heuristic
/// confidence exceeds 0.6.
pub open spec fn local_verdict(e: ThreatEvidence) -> bool {
    local_confidence(e) > 6000
}

/// The justification text: the factors that fired, in evaluation order,
/// followed by the numeric confidence.
pub open spec fn local_justification(e: ThreatEvidence) -> Seq<char> {
    (if seq_starts_with(e.agent_id@, "upstream-"@) {
        "Upstream source: "@ + e.agent_id@ + "; "@
    } else {
        Seq::<char>::empty()
    }) + (if is_known_threat_ip_spec(e.source_ip@) {
        "Known threat IP; "@
    } else {
        Seq::<char>::empty()
    }) + "Calculated confidence: "@ + spec_render_score(local_confidence(e))
}

/// The rendering of a response's signed fields: request id, verdict,
/// confidence and signer, separated by dashes.
pub open spec fn signature_input(
    request_id: Seq<char>,
    verdict: bool,
    confidence: int,
    agent: Seq<char>,
) -> Seq<char> {
    request_id + "-"@ + (if verdict {
        "true"@
    } else {
        "false"@
    }) + "-"@ + spec_render_score(confidence) + "-"@ + agent
}

/// The two requests agree on every field; the verifier and response lists
/// are compared as sequences.
pub open spec fn request_equiv(a: VerificationRequest, b: VerificationRequest) -> bool {
    &&& a.request_id == b.request_id
    &&& a.evidence_id == b.evidence_id
    &&& a.evidence == b.evidence
    &&& a.requesting_agent == b.requesting_agent
    &&& a.timestamp == b.timestamp
    &&& a.verification_threshold == b.verification_threshold
    &&& a.verifiers@ == b.verifiers@
    &&& a.responses@ == b.responses@
    &&& a.status == b.status
}

/// A freshly created verification request: pending, with no verifiers and
/// no responses, carrying a full snapshot of the evidence and a request id
/// with the submission prefix.
pub open spec fn is_fresh_request(
    req: VerificationRequest,
    evidence: ThreatEvidence,
    agent: Seq<char>,
    threshold: u32,
    now: i64,
) -> bool {
    &&& seq_starts_with(req.request_id@, "consensus-"@)
    &&& req.evidence_id@ == evidence.id@
    &&& req.evidence == evidence
    &&& req.requesting_agent@ == agent
    &&& req.timestamp == now
    &&& req.verification_threshold == threshold
    &&& req.verifiers@.len() == 0
    &&& req.responses@.len() == 0
    &&& req.status == VerificationStatus::Pending
}

/// `new` is `old` with `resp` appended to the request whose id matches,
/// and that request promoted to in-progress once its response count
/// reaches its threshold; all other fields and requests are unchanged.
/// When no request matches, the store is unchanged.
pub open spec fn records_response(
    old_s: Seq<VerificationRequest>,
    new_s: Seq<VerificationRequest>,
    resp: VerificationResponse,
) -> bool {
    if has_request(old_s, resp.request_id@) {
        let i = request_index(old_s, resp.request_id@);
        let old_req = old_s[i];
        let new_req = new_s[i];
        &&& new_s.len() == old_s.len()
        &&& forall|j: int| 0 <= j < old_s.len() && j != i ==> new_s[j] == old_s[j]
        &&& new_req.request_id == old_req.request_id
        &&& new_req.evidence_id == old_req.evidence_id
        &&& new_req.evidence == old_req.evidence
        &&& new_req.requesting_agent == old_req.requesting_agent
        &&& new_req.timestamp == old_req.timestamp
        &&& new_req.verification_threshold == old_req.verification_threshold
        &&& new_req.verifiers@ == old_req.verifiers@
        &&& new_req.responses@ == old_req.responses@.push(resp)
        &&& new_req.status == (if old_req.responses@.len() + 1
            >= old_req.verification_threshold as int {
            VerificationStatus::InProgress
        } else {
            old_req.status
        })
    } else {
        new_s == old_s
    }
}

/// With pairwise-distinct request ids, a slot holding the id is the slot
/// the lookup functions name.
proof fn lemma_request_index_unique(s: Seq<VerificationRequest>, id: Seq<char>, i: int)
    requires
        forall|p: int, q: int|
            #![trigger s[p], s[q]]
            0 <= p < q < s.len() ==> s[p].request_id@ != s[q].request_id@,
        0 <= i < s.len(),
        s[i].request_id@ == id,
    ensures
        has_request(s, id),
        request_index(s, id) == i,
{
    assert(has_request(s, id));
    let j = request_index(s, id);
    if i < j {
        assert(s[i].request_id@ != s[j].request_id@);
    } else if j < i {
        assert(s[j].request_id@ != s[i].request_id@);
    }
}

/// With pairwise-distinct evidence ids, a slot holding the id is the slot
/// the lookup functions name.
proof fn lemma_result_index_unique(s: Seq<ConsensusResult>, id: Seq<char>, i: int)
    requires
        forall|p: int, q: int|
            #![trigger s[p], s[q]]
            0 <= p < q < s.len() ==> s[p].evidence_id@ != s[q].evidence_id@,
        0 <= i < s.len(),
        s[i].evidence_id@ == id,
    ensures
        has_result(s, id),
        result_index(s, id) == i,
{
    assert(has_result(s, id));
    let j = result_index(s, id);
    if i < j {
        assert(s[i].evidence_id@ != s[j].evidence_id@);
    } else if j < i {
        assert(s[j].evidence_id@ != s[i].evidence_id@);
    }
}

impl ConsensusEngine {
    /// The position of the stored request with this id.
    fn find_request_index(&self, request_id: &str) -> (r: Option<usize>)
        ensures
            match r {
                Some(i) => i < self.pending_requests@.len()
                    && self.pending_requests@[i as int].request_id@ == request_id@,
                None => !has_request(self.pending_requests@, request_id@),
            },
    {
        let mut i: usize = 0;
        while i < self.pending_requests.len()
            invariant
                i <= self.pending_requests@.len(),
                forall|j: int|
                    0 <= j < i ==> (#[trigger] self.pending_requests@[j]).request_id@
                        != request_id@,
            decreases self.pending_requests@.len() - i,
        {
            if str_eq(self.pending_requests[i].request_id.as_str(), request_id) {
                return Some(i);
            }
            i = i + 1;
        }
        None
    }

    /// Submit evidence for consensus verification: a fresh pending request
    /// holding a snapshot of the evidence is stored under a new request id
    /// and returned. The operation itself never fails.
    pub fn submit_for_verification(&mut self, evidence: ThreatEvidence, now: i64) -> (r: Result<
        VerificationRequest,
        AgentError,
    >)
        requires
            old(self).wf(),
            now >= 0,
        ensures
            final(self).wf(),
            final(self).config == old(self).config,
            final(self).local_agent_id == old(self).local_agent_id,
            final(self).verification_cache@ == old(self).verification_cache@,
            r is Ok,
            is_fresh_request(
                r->Ok_0,
                evidence,
                old(self).local_agent_id@,
                old(self).config.min_verifiers,
                now,
            ),
            has_request(final(self).pending_requests@, r->Ok_0.request_id@),
            request_equiv(request_at(final(self).pending_requests@, r->Ok_0.request_id@), r->Ok_0),
            final(self).pending_requests@.len() == old(self).pending_requests@.len() + (
            if has_request(old(self).pending_requests@, r->Ok_0.request_id@) {
                0int
            } else {
                1int
            }),
            forall|j: int|
                0 <= j < old(self).pending_requests@.len()
                    && (#[trigger] old(self).pending_requests@[j]).request_id@
                    != r->Ok_0.request_id@ ==> final(self).pending_requests@[j]
                    == old(self).pending_requests@[j],
    {
        let token = new_uuid_string();
        let mut request_id: String = "consensus-".to_owned();
        request_id.append(token.as_str());
        proof {
            reveal_strlit("consensus-");
            assert(request_id@.subrange(0, 10) =~= "consensus-"@);
        }

        let stored = VerificationRequest {
            request_id: request_id.clone(),
            evidence_id: evidence.id.clone(),
            evidence: evidence.duplicate(),
            requesting_agent: self.local_agent_id.clone(),
            timestamp: now,
            verification_threshold: self.config.min_verifiers,
            verifiers: Vec::new(),
            responses: Vec::new(),
            status: VerificationStatus::Pending,
        };
        let returned = VerificationRequest {
            request_id,
            evidence_id: evidence.id.clone(),
            evidence,
            requesting_agent: self.local_agent_id.clone(),
            timestamp: now,
            verification_threshold: self.config.min_verifiers,
            verifiers: Vec::new(),
            responses: Vec::new(),
            status: VerificationStatus::Pending,
        };

        let ghost old_s = self.pending_requests@;
        match self.find_request_index(stored.request_id.as_str()) {
            Some(i) => {
                proof {
                    lemma_request_index_unique(old_s, stored.request_id@, i as int);
                }
                self.pending_requests.set(i, stored);
                proof {
                    lemma_request_index_unique(
                        self.pending_requests@,
                        returned.request_id@,
                        i as int,
                    );
                }
            },
            None => {
                self.pending_requests.push(stored);
                proof {
                    lemma_request_index_unique(
                        self.pending_requests@,
                        returned.request_id@,
                        old_s.len() as int,
                    );
                }
            },
        }
        Ok(returned)
    }

    /// The authentication tag over a response's request id, verdict,
    /// confidence and signer: the shortened digest of their rendering.
    fn sign_verification_response(&self, request_id: &String, verdict: bool, confidence: u64) -> (r:
        Result<String, AgentError>)
        requires
            confidence <= SCORE_SCALE,
        ensures
            r is Ok,
            r->Ok_0@ == crate::crypto::digest16_of(
                vstd::utf8::encode_utf8(
                    signature_input(request_id@, verdict, confidence as int, self.local_agent_id@),
                ),
            ),
    {
        let mut data = request_id.clone();
        data.append("-");
        data.append(if verdict { "true" } else { "false" });
        data.append("-");
        let rendered = render_score(confidence);
        data.append(rendered.as_str());
        data.append("-");
        data.append(self.local_agent_id.as_str());
        assert(data@ =~= signature_input(
            request_id@,
            verdict,
            confidence as int,
            self.local_agent_id@,
        ));
        Ok(crate::crypto::CryptoProvider::blake3_hash(data.as_str().as_bytes()))
    }

    /// Record one verifier's response against its pending request: the
    /// response is appended to the matching request, which moves to
    /// in-progress once its response count reaches its threshold. A
    /// response for an unknown request id leaves the store unchanged.
    pub fn record_response(&mut self, response: VerificationResponse)
        requires
            old(self).wf(),
            response.wf(),
        ensures
            final(self).wf(),
            final(self).config == old(self).config,
            final(self).local_agent_id == old(self).local_agent_id,
            final(self).verification_cache@ == old(self).verification_cache@,
            records_response(old(self).pending_requests@, final(self).pending_requests@, response),
    {
        let ghost old_s = self.pending_requests@;
        match self.find_request_index(response.request_id.as_str()) {
            Some(i) => {
                proof {
                    lemma_request_index_unique(old_s, response.request_id@, i as int);
                }
                let mut req = self.pending_requests.remove(i);
                req.responses.push(response);
                if req.responses.len() >= req.verification_threshold as usize {
                    req.status = VerificationStatus::InProgress;
                }
                self.pending_requests.insert(i, req);
                proof {
                    assert(self.pending_requests@ =~= old_s.update(
                        i as int,
                        self.pending_requests@[i as int],
                    ));
                }
            },
            None => {
                assert(self.pending_requests@ =~= old_s);
            },
        }
    }

    /// This node's judgment on a request's evidence: the local heuristic's
    /// verdict, confidence and justification, signed and recorded against
    /// the stored request.
    pub fn verify_evidence(&mut self, request: &VerificationRequest, now: i64) -> (r: Result<
        VerificationResponse,
        AgentError,
    >)
        requires
            old(self).wf(),
            now >= 0,
        ensures
            final(self).wf(),
            final(self).config == old(self).config,
            final(self).local_agent_id == old(self).local_agent_id,
            final(self).verification_cache@ == old(self).verification_cache@,
            r is Ok,
            ({
                let resp = r->Ok_0;
                &&& resp.request_id@ == request.request_id@
                &&& resp.evidence_id@ == request.evidence_id@
                &&& resp.verifying_agent@ == old(self).local_agent_id@
                &&& resp.verdict == local_verdict(request.evidence)
                &&& resp.confidence == local_confidence(request.evidence)
                &&& resp.justification@ == local_justification(request.evidence)
                &&& resp.timestamp == now
                &&& resp.signature@ == crate::crypto::digest16_of(
                    vstd::utf8::encode_utf8(
                        signature_input(
                            request.request_id@,
                            local_verdict(request.evidence),
                            local_confidence(request.evidence),
                            old(self).local_agent_id@,
                        ),
                    ),
                )
                &&& records_response(old(self).pending_requests@, final(self).pending_requests@, resp)
            }),
    {
        let (verdict, confidence, justification) = self.local_verify_evidence(&request.evidence);
        let signature = match self.sign_verification_response(
            &request.request_id,
            verdict,
            confidence,
        ) {
            Ok(s) => s,
            Err(e) => {
                return Err(e);
            },
        };
        let response = VerificationResponse {
            request_id: request.request_id.clone(),
            evidence_id: request.evidence_id.clone(),
            verifying_agent: self.local_agent_id.clone(),
            verdict,
            confidence,
            justification,
            timestamp: now,
            signature,
        };
        let returned = response.duplicate();
        self.record_response(response);
        Ok(returned)
    }

    /// Whether an IP is on the built-in list of known bad addresses.
    fn is_known_threat_ip(&self, ip: &String) -> (r: bool)
        ensures
            r == is_known_threat_ip_spec(ip@),
    {
        str_eq(ip.as_str(), "192.168.1.100") || str_eq(ip.as_str(), "10.0.0.10") || str_eq(
            ip.as_str(),
            "8.8.8.8",
        )
    }

    /// This node's own judgment on a piece of evidence, by the local
    /// verification heuristic: the verdict, the confidence score and the
    /// justification text.
    pub fn local_verify_evidence(&self, evidence: &ThreatEvidence) -> (r: (bool, u64, String))
        ensures
            r.0 == local_verdict(*evidence),
            r.1 == local_confidence(*evidence),
            r.2@ == local_justification(*evidence),
            r.1 <= SCORE_SCALE,
    {
        let mut confidence: u64 = 5000;
        let mut justification = String::new();

        let upstream = str_starts_with(evidence.agent_id.as_str(), "upstream-");
        if upstream {
            confidence = confidence + 2000;
            justification.append("Upstream source: ");
            justification.append(evidence.agent_id.as_str());
            justification.append("; ");
        }

        match evidence.threat_level {
            ThreatLevel::Info => {
                confidence = confidence - 1000;
            },
            ThreatLevel::Warning => {
                confidence = confidence + 1000;
            },
            ThreatLevel::Critical => {
                confidence = confidence + 2000;
            },
            ThreatLevel::Emergency => {
                confidence = confidence + 3000;
            },
        }

        let known_ip = self.is_known_threat_ip(&evidence.source_ip);
        if known_ip {
            confidence = confidence + 3000;
            justification.append("Known threat IP; ");
        }

        match evidence.threat_type {
            ThreatType::IoCMatch => {
                confidence = confidence + 1000;
            },
            ThreatType::Malware => {
                confidence = confidence + 2000;
            },
            ThreatType::DDoS => {
                confidence = confidence + 1500;
            },
            ThreatType::APT => {
                confidence = confidence + 2500;
            },
            _ => {
                confidence = confidence + 500;
            },
        }

        if confidence > SCORE_SCALE {
            confidence = SCORE_SCALE;
        }
        let verdict = confidence > 6000;

        justification.append("Calculated confidence: ");
        let rendered = render_score(confidence);
        justification.append(rendered.as_str());

        assert(confidence == local_confidence(*evidence));
        assert(justification@ =~= local_justification(*evidence));

        (verdict, confidence, justification)
    }
}

/// The number of confirming responses.
pub open spec fn count_confirms(rs: Seq<VerificationResponse>) -> int
    decreases rs.len(),
{
    if rs.len() == 0 {
        0
    } else {
        count_confirms(rs.drop_last()) + (if rs.last().verdict {
            1int
        } else {
            0int
        })
    }
}

/// The sum of all response confidences.
pub open spec fn sum_confidence(rs: Seq<VerificationResponse>) -> int
    decreases rs.len(),
{
    if rs.len() == 0 {
        0
    } else {
        sum_confidence(rs.drop_last()) + rs.last().confidence
    }
}

/// The agents of the confirming responses, in response order.
pub open spec fn confirming_agents(rs: Seq<VerificationResponse>) -> Seq<String>
    decreases rs.len(),
{
    if rs.len() == 0 {
        Seq::empty()
    } else {
        confirming_agents(rs.drop_last()) + (if rs.last().verdict {
            seq![rs.last().verifying_agent]
        } else {
            Seq::empty()
        })
    }
}

/// The agents of the disputing responses, in response order.
pub open spec fn disputing_agents(rs: Seq<VerificationResponse>) -> Seq<String>
    decreases rs.len(),
{
    if rs.len() == 0 {
        Seq::empty()
    } else {
        disputing_agents(rs.drop_last()) + (if rs.last().verdict {
            Seq::empty()
        } else {
            seq![rs.last().verifying_agent]
        })
    }
}

/// The number of confirmations lies between zero and the number of
/// responses.
pub proof fn lemma_count_confirms_bounds(rs: Seq<VerificationResponse>)
    ensures
        0 <= count_confirms(rs) <= rs.len(),
    decreases rs.len(),
{
    if rs.len() > 0 {
        lemma_count_confirms_bounds(rs.drop_last());
    }
}

/// When every response carries a score-ranged confidence, the sum of the
/// confidences lies between zero and the response count times the scale.
pub proof fn lemma_sum_confidence_bounds(rs: Seq<VerificationResponse>)
    requires
        forall|i: int| 0 <= i < rs.len() ==> (#[trigger] rs[i]).wf(),
    ensures
        0 <= sum_confidence(rs) <= rs.len() * SCORE_SCALE,
    decreases rs.len(),
{
    if rs.len() > 0 {
        assert(forall|i: int|
            0 <= i < rs.drop_last().len() ==> (#[trigger] rs.drop_last()[i]).wf());
        lemma_sum_confidence_bounds(rs.drop_last());
        assert(rs.last().wf());
        assert((rs.len() - 1) * SCORE_SCALE + SCORE_SCALE == rs.len() * SCORE_SCALE)
            by (nonlinear_arith);
    }
}

/// For a positive denominator, the floored quotient reaches an integer
/// bound exactly when the numerator reaches that bound times the
/// denominator.
pub proof fn lemma_div_reaches(x: int, n: int, t: int)
    requires
        x >= 0,
        n >= 1,
        t >= 0,
    ensures
        (x / n >= t) <==> (x >= t * n),
{
    vstd::arithmetic::div_mod::lemma_fundamental_div_mod(x, n);
    let q = x / n;
    let rem = x % n;
    assert(x == q * n + rem) by (nonlinear_arith)
        requires
            x == n * q + rem,
    ;
    vstd::arithmetic::div_mod::lemma_remainder(x, n);
    if x >= t * n && q < t {
        assert(q * n <= (t - 1) * n) by (nonlinear_arith)
            requires
                n >= 1,
                q <= t - 1,
        ;
        assert((t - 1) * n + n == t * n) by (nonlinear_arith);
        assert(false);
    }
    if q >= t {
        assert(q * n >= t * n) by (nonlinear_arith)
            requires
                n >= 1,
                q >= t,
        ;
    }
}

/// `new` is `old` with the request at `id` moved to its terminal
/// consensus status; everything else is unchanged.
pub open spec fn finalizes_request(
    old_s: Seq<VerificationRequest>,
    new_s: Seq<VerificationRequest>,
    id: Seq<char>,
    verdict: bool,
) -> bool {
    let i = request_index(old_s, id);
    let old_req = old_s[i];
    let new_req = new_s[i];
    &&& new_s.len() == old_s.len()
    &&& forall|j: int| 0 <= j < old_s.len() && j != i ==> new_s[j] == old_s[j]
    &&& new_req.request_id == old_req.request_id
    &&& new_req.evidence_id == old_req.evidence_id
    &&& new_req.evidence == old_req.evidence
    &&& new_req.requesting_agent == old_req.requesting_agent
    &&& new_req.timestamp == old_req.timestamp
    &&& new_req.verification_threshold == old_req.verification_threshold
    &&& new_req.verifiers@ == old_req.verifiers@
    &&& new_req.responses@ == old_req.responses@
    &&& new_req.status == (if verdict {
        VerificationStatus::ConsensusReached
    } else {
        VerificationStatus::ConsensusFailed
    })
}

/// `new` is `old` with `res` written under its evidence id, replacing any
/// prior entry for that id — last write wins.
pub open spec fn caches_result(
    old_c: Seq<ConsensusResult>,
    new_c: Seq<ConsensusResult>,
    res: ConsensusResult,
) -> bool {
    if has_result(old_c, res.evidence_id@) {
        let i = result_index(old_c, res.evidence_id@);
        &&& new_c.len() == old_c.len()
        &&& forall|j: int| 0 <= j < old_c.len() && j != i ==> new_c[j] == old_c[j]
        &&& result_equiv(new_c[i], res)
    } else {
        &&& new_c.len() == old_c.len() + 1
        &&& forall|j: int| 0 <= j < old_c.len() ==> new_c[j] == old_c[j]
        &&& result_equiv(new_c[old_c.len() as int], res)
    }
}

/// What a cache lookup returns: the cached result for the evidence id
/// when one is present, nothing otherwise.
pub open spec fn cached_lookup(
    cache: Seq<ConsensusResult>,
    id: Seq<char>,
    r: Option<ConsensusResult>,
) -> bool {
    match r {
        Some(res) => has_result(cache, id) && result_equiv(res, result_at(cache, id)),
        None => !has_result(cache, id),
    }
}

/// Cache lookups are idempotent: two lookups for the same evidence id
/// against the same cache state either both miss, or both return the
/// cached result.
pub proof fn lemma_get_cached_result_idempotent(
    cache: Seq<ConsensusResult>,
    id: Seq<char>,
    r1: Option<ConsensusResult>,
    r2: Option<ConsensusResult>,
)
    requires
        cached_lookup(cache, id, r1),
        cached_lookup(cache, id, r2),
    ensures
        r1 is Some <==> r2 is Some,
        r1 is Some && r2 is Some ==> result_equiv(r1->Some_0, r2->Some_0),
{
}

/// For `n` responses of which `k` confirm, the fixed-point consensus
/// percentage is exactly `k / n`, it lies within the scale, and the
/// verdict holds exactly when the exact ratio `k / n` reaches the
/// threshold.
pub proof fn lemma_consensus_percentage(k: int, n: int, threshold: int)
    requires
        0 <= k <= n,
        n >= 1,
        0 <= threshold,
    ensures
        0 <= k * SCORE_SCALE / n <= SCORE_SCALE,
        (k * SCORE_SCALE / n >= threshold) <==> (k * SCORE_SCALE >= threshold * n),
{
    assert(k * SCORE_SCALE <= n * SCORE_SCALE) by (nonlinear_arith)
        requires
            0 <= k <= n,
    ;
    crate::lemma_div_in_scale(k * SCORE_SCALE, n);
    lemma_div_reaches(k * SCORE_SCALE, n, threshold);
}

/// The requests young enough to survive a cleanup sweep at time `now`
/// with the given timeout.
pub open spec fn keeps_request(now: i64, timeout: u64) -> spec_fn(VerificationRequest) -> bool {
    |req: VerificationRequest| now - req.timestamp < timeout as int
}

/// Everything `check_consensus` states of its result on success: each
/// field is the documented function of the recorded responses, the
/// configured threshold and the clock.
pub open spec fn is_consensus_result_of(
    res: ConsensusResult,
    req: VerificationRequest,
    threshold: u64,
    now: i64,
) -> bool {
    let n = req.responses@.len() as int;
    let k = count_confirms(req.responses@);
    &&& res.evidence_id == req.evidence_id
    &&& res.total_verifiers == n
    &&& res.consensus_percentage == k * SCORE_SCALE / n
    &&& res.consensus_verdict == (k * SCORE_SCALE >= threshold * n)
    &&& res.consensus_verdict == (res.consensus_percentage >= threshold)
    &&& res.confidence_score == sum_confidence(req.responses@) / n
    &&& res.consensus_percentage <= SCORE_SCALE
    &&& res.confidence_score <= SCORE_SCALE
    &&& res.verified_by@ == confirming_agents(req.responses@)
    &&& res.disputed_by@ == disputing_agents(req.responses@)
    &&& res.timestamp == now
}

impl ConsensusEngine {
    /// The position of the cached result with this evidence id.
    fn find_result_index(&self, evidence_id: &str) -> (r: Option<usize>)
        ensures
            match r {
                Some(i) => i < self.verification_cache@.len()
                    && self.verification_cache@[i as int].evidence_id@ == evidence_id@,
                None => !has_result(self.verification_cache@, evidence_id@),
            },
    {
        let mut i: usize = 0;
        while i < self.verification_cache.len()
            invariant
                i <= self.verification_cache@.len(),
                forall|j: int|
                    0 <= j < i ==> (#[trigger] self.verification_cache@[j]).evidence_id@
                        != evidence_id@,
            decreases self.verification_cache@.len() - i,
        {
            if str_eq(self.verification_cache[i].evidence_id.as_str(), evidence_id) {
                return Some(i);
            }
            i = i + 1;
        }
        None
    }

    /// Compute the consensus outcome of a verification request: fails with
    /// a not-found condition for an unknown request id and with a no-data
    /// condition when no responses were recorded; otherwise counts the
    /// confirmations and disputes in response order, takes the mean
    /// confidence and the confirmation share, marks the request with its
    /// terminal status, and caches the result under the evidence id (last
    /// write wins).
    pub fn check_consensus(&mut self, request_id: &String, now: i64) -> (r: Result<
        ConsensusResult,
        AgentError,
    >)
        requires
            old(self).wf(),
            now >= 0,
        ensures
            final(self).wf(),
            final(self).config == old(self).config,
            final(self).local_agent_id == old(self).local_agent_id,
            (r is Ok) == (has_request(old(self).pending_requests@, request_id@)
                && request_at(old(self).pending_requests@, request_id@).responses@.len() > 0),
            r is Err ==> {
                &&& final(self).pending_requests@ == old(self).pending_requests@
                &&& final(self).verification_cache@ == old(self).verification_cache@
                &&& (r->Err_0 is NotFound <==> !has_request(
                    old(self).pending_requests@,
                    request_id@,
                ))
                &&& (r->Err_0 is NoData <==> has_request(old(self).pending_requests@, request_id@)
                    && request_at(old(self).pending_requests@, request_id@).responses@.len() == 0)
            },
            r is Ok ==> {
                &&& is_consensus_result_of(
                    r->Ok_0,
                    request_at(old(self).pending_requests@, request_id@),
                    old(self).config.consensus_threshold,
                    now,
                )
                &&& finalizes_request(
                    old(self).pending_requests@,
                    final(self).pending_requests@,
                    request_id@,
                    r->Ok_0.consensus_verdict,
                )
                &&& caches_result(
                    old(self).verification_cache@,
                    final(self).verification_cache@,
                    r->Ok_0,
                )
            },
    {
        let ghost old_s = self.pending_requests@;
        let ghost old_c = self.verification_cache@;

        let i = match self.find_request_index(request_id.as_str()) {
            Some(i) => i,
            None => {
                let mut msg: String = "Verification request ".to_owned();
                msg.append(request_id.as_str());
                msg.append(" not found");
                return Err(AgentError::NotFound(msg));
            },
        };
        proof {
            lemma_request_index_unique(old_s, request_id@, i as int);
        }

        let mut req = self.pending_requests.remove(i);
        let total_responses = req.responses.len();
        if total_responses == 0 {
            self.pending_requests.insert(i, req);
            proof {
                assert(self.pending_requests@ =~= old_s);
            }
            return Err(AgentError::NoData("No verification responses received".to_owned()));
        }

        let ghost responses = req.responses@;
        let mut verified_count: u64 = 0;
        let mut confidence_total: u128 = 0;
        let mut verified_by: Vec<String> = Vec::new();
        let mut disputed_by: Vec<String> = Vec::new();
        let mut j: usize = 0;
        while j < total_responses
            invariant
                j <= total_responses,
                total_responses == responses.len(),
                req.responses@ == responses,
                forall|p: int| 0 <= p < responses.len() ==> (#[trigger] responses[p]).wf(),
                verified_count == count_confirms(responses.subrange(0, j as int)),
                confidence_total == sum_confidence(responses.subrange(0, j as int)),
                verified_by@ == confirming_agents(responses.subrange(0, j as int)),
                disputed_by@ == disputing_agents(responses.subrange(0, j as int)),
                verified_count <= j,
                confidence_total <= (j as int) * SCORE_SCALE,
            decreases total_responses - j,
        {
            let ghost prefix = responses.subrange(0, j as int);
            proof {
                assert(responses.subrange(0, j + 1).drop_last() =~= prefix);
                assert(responses.subrange(0, j + 1).last() == responses[j as int]);
                assert((j as int) * SCORE_SCALE + SCORE_SCALE == (j + 1) * SCORE_SCALE)
                    by (nonlinear_arith);
            }
            let resp = &req.responses[j];
            if resp.verdict {
                verified_count = verified_count + 1;
                verified_by.push(resp.verifying_agent.clone());
                assert(verified_by@ =~= confirming_agents(responses.subrange(0, j + 1)));
                assert(disputed_by@ =~= disputing_agents(responses.subrange(0, j + 1)));
            } else {
                disputed_by.push(resp.verifying_agent.clone());
                assert(verified_by@ =~= confirming_agents(responses.subrange(0, j + 1)));
                assert(disputed_by@ =~= disputing_agents(responses.subrange(0, j + 1)));
            }
            confidence_total = confidence_total + resp.confidence as u128;
            j = j + 1;
        }
        proof {
            assert(responses.subrange(0, total_responses as int) =~= responses);
        }

        let ghost k = count_confirms(responses);
        let ghost n = responses.len() as int;

        let percentage_wide: u128 = (verified_count as u128) * (SCORE_SCALE as u128) / (
        total_responses as u128);
        proof {
            crate::lemma_div_in_scale(k * SCORE_SCALE, n);
            assert(k * SCORE_SCALE <= n * SCORE_SCALE) by (nonlinear_arith)
                requires
                    0 <= k <= n,
            ;
            lemma_count_confirms_bounds(responses);
        }
        let consensus_percentage: u64 = percentage_wide as u64;

        assert(self.config.consensus_threshold <= SCORE_SCALE);
        proof {
            let thr = old(self).config.consensus_threshold as int;
            let tot = total_responses as int;
            assert(thr * tot <= 10000 * 0xffff_ffff_ffff_ffffu64 as int) by (nonlinear_arith)
                requires
                    thr <= 10000,
                    0 <= tot <= 0xffff_ffff_ffff_ffffu64 as int,
            ;
        }
        let threshold_reached: bool = (verified_count as u128) * (SCORE_SCALE as u128)
            >= (self.config.consensus_threshold as u128) * (total_responses as u128);
        proof {
            lemma_div_reaches(
                k * SCORE_SCALE,
                n,
                old(self).config.consensus_threshold as int,
            );
        }
        let consensus_verdict = threshold_reached;

        let avg_confidence_wide: u128 = confidence_total / (total_responses as u128);
        proof {
            lemma_sum_confidence_bounds(responses);
            crate::lemma_div_in_scale(sum_confidence(responses), n);
        }
        let confidence_score: u64 = avg_confidence_wide as u64;

        let consensus_result = ConsensusResult {
            evidence_id: req.evidence_id.clone(),
            consensus_verdict,
            confidence_score,
            verified_by,
            disputed_by,
            total_verifiers: total_responses,
            consensus_percentage,
            timestamp: now,
        };

        req.status = if consensus_verdict {
            VerificationStatus::ConsensusReached
        } else {
            VerificationStatus::ConsensusFailed
        };
        self.pending_requests.insert(i, req);
        proof {
            assert(finalizes_request(
                old_s,
                self.pending_requests@,
                request_id@,
                consensus_verdict,
            ));
        }

        let stored_result = consensus_result.duplicate();
        match self.find_result_index(stored_result.evidence_id.as_str()) {
            Some(c) => {
                proof {
                    lemma_result_index_unique(old_c, stored_result.evidence_id@, c as int);
                }
                self.verification_cache.set(c, stored_result);
            },
            None => {
                self.verification_cache.push(stored_result);
            },
        }

        Ok(consensus_result)
    }

    /// The cached consensus result for an evidence id, if one is present.
    /// The result is a pure function of the engine state, so two lookups
    /// without an intervening consensus computation agree.
    pub fn get_cached_result(&self, evidence_id: &String) -> (r: Option<ConsensusResult>)
        requires
            self.wf(),
        ensures
            cached_lookup(self.verification_cache@, evidence_id@, r),
    {
        match self.find_result_index(evidence_id.as_str()) {
            Some(i) => {
                proof {
                    lemma_result_index_unique(self.verification_cache@, evidence_id@, i as int);
                }
                Some(self.verification_cache[i].duplicate())
            },
            None => None,
        }
    }

    /// Sweep away every stored request older than the configured
    /// verification timeout, measured from its creation time, whatever its
    /// status.
    pub fn cleanup_old_requests(&mut self, now: i64) -> (r: Result<(), AgentError>)
        requires
            old(self).wf(),
            now >= 0,
        ensures
            final(self).wf(),
            final(self).config == old(self).config,
            final(self).local_agent_id == old(self).local_agent_id,
            final(self).verification_cache@ == old(self).verification_cache@,
            r is Ok,
            final(self).pending_requests@ == old(self).pending_requests@.filter(
                keeps_request(now, old(self).config.verification_timeout),
            ),
    {
        let ghost old_s = self.pending_requests@;
        let timeout = self.config.verification_timeout;
        let ghost pred = keeps_request(now, timeout);
        let initial_len = self.pending_requests.len();
        assert(old_s.len() == initial_len);
        let mut kept: Vec<VerificationRequest> = Vec::new();
        proof {
            assert(old_s.subrange(0, 0).filter(pred) =~= Seq::<VerificationRequest>::empty())
                by {
                reveal(Seq::filter);
            }
        }
        let mut p: usize = 0;
        while self.pending_requests.len() > 0
            invariant
                p + self.pending_requests@.len() == old_s.len(),
                old_s.len() <= usize::MAX,
                self.pending_requests@ =~= old_s.subrange(p as int, old_s.len() as int),
                kept@ == old_s.subrange(0, p as int).filter(pred),
                pred == keeps_request(now, timeout),
                timeout == old(self).config.verification_timeout,
                self.config == old(self).config,
                self.local_agent_id == old(self).local_agent_id,
                self.verification_cache@ == old(self).verification_cache@,
                forall|q: int| 0 <= q < old_s.len() ==> (#[trigger] old_s[q]).wf(),
                now >= 0,
                timeout <= 0x7fff_ffff_ffff_ffff,
            decreases self.pending_requests@.len(),
        {
            let req = self.pending_requests.remove(0);
            assert(req == old_s[p as int]);
            let keep = now - req.timestamp < timeout as i64;
            if keep {
                kept.push(req);
            }
            proof {
                let prefix = old_s.subrange(0, p as int);
                let next = old_s.subrange(0, p + 1);
                assert(next.drop_last() =~= prefix);
                assert(next.last() == old_s[p as int]);
                reveal(Seq::filter);
                assert(keep == (now - req.timestamp < timeout as int));
                assert(pred(old_s[p as int]) == (now - old_s[p as int].timestamp
                    < timeout as int));
                assert(pred(old_s[p as int]) == keep);
                assert(next.filter(pred) == (if pred(next.last()) {
                    prefix.filter(pred).push(next.last())
                } else {
                    prefix.filter(pred)
                }));
                assert(kept@ == old_s.subrange(0, p + 1).filter(pred));
                assert(self.pending_requests@ =~= old_s.subrange(p + 1, old_s.len() as int));
            }
            p = p + 1;
        }
        proof {
            assert(old_s.subrange(0, old_s.len() as int) =~= old_s);
        }
        self.pending_requests = kept;
        proof {
            lemma_filter_wf_unique(old_s, pred);
        }
        Ok(())
    }
}

/// Filtering a request store keeps well-formedness and the uniqueness of
/// request ids.
proof fn lemma_filter_wf_unique(s: Seq<VerificationRequest>, pred: spec_fn(
    VerificationRequest,
) -> bool)
    requires
        forall|p: int, q: int|
            #![trigger s[p], s[q]]
            0 <= p < q < s.len() ==> s[p].request_id@ != s[q].request_id@,
        forall|i: int| 0 <= i < s.len() ==> (#[trigger] s[i]).wf(),
    ensures
        forall|p: int, q: int|
            #![trigger s.filter(pred)[p], s.filter(pred)[q]]
            0 <= p < q < s.filter(pred).len() ==> s.filter(pred)[p].request_id@ != s.filter(
                pred,
            )[q].request_id@,
        forall|i: int| 0 <= i < s.filter(pred).len() ==> (#[trigger] s.filter(pred)[i]).wf(),
    decreases s.len(),
{
    reveal(Seq::filter);
    if s.len() > 0 {
        let butlast = s.drop_last();
        assert(forall|p: int, q: int|
            #![trigger butlast[p], butlast[q]]
            0 <= p < q < butlast.len() ==> butlast[p].request_id@ != butlast[q].request_id@);
        assert(forall|i: int| 0 <= i < butlast.len() ==> (#[trigger] butlast[i]).wf());
        lemma_filter_wf_unique(butlast, pred);
        let f = s.filter(pred);
        let fb = butlast.filter(pred);
        if pred(s.last()) {
            assert(f == fb.push(s.last()));
            assert forall|p: int, q: int|
                0 <= p < q < f.len() implies #[trigger] f[p].request_id@
                != #[trigger] f[q].request_id@ by {
                if q < f.len() - 1 {
                    assert(f[p] == fb[p] && f[q] == fb[q]);
                } else {
                    assert(f[q] == s.last());
                    assert(fb.contains(f[p])) by {
                        assert(f[p] == fb[p]);
                    }
                    let w = choose|w: int| 0 <= w < butlast.len() && butlast[w] == f[p];
                    lemma_filter_element_of(butlast, pred, p);
                    let orig = choose|o: int|
                        0 <= o < butlast.len() && butlast[o] == fb[p as int];
                    assert(s[orig] == f[p]);
                    assert(s[orig].request_id@ != s.last().request_id@);
                }
            }
        }
    }
}

/// The correlation rule: two records describe the same event when their
/// non-empty source IPs are equal, their non-empty flow descriptors are
/// equal, or one non-empty context contains the other. The rule is
/// symmetric.
pub open spec fn correlated(a: ThreatEvidence, b: ThreatEvidence) -> bool {
    ||| (a.source_ip@.len() > 0 && b.source_ip@.len() > 0 && a.source_ip@ == b.source_ip@)
    ||| (a.network_flow@.len() > 0 && b.network_flow@.len() > 0 && a.network_flow@
        == b.network_flow@)
    ||| (a.context@.len() > 0 && b.context@.len() > 0 && (crate::strings::seq_contains_sub(
        a.context@,
        b.context@,
    ) || crate::strings::seq_contains_sub(b.context@, a.context@)))
}

/// The combination rule for a correlated local record `a` and upstream
/// record `b`: ids and agent ids are joined under a combined prefix, the
/// timestamp and severity are the higher of the two, string fields prefer
/// `a`'s non-empty value, the reputation is the mean, the content hash is
/// the digest of the two original hashes joined by a dash, and compliance
/// tag and region come from `a`.
pub open spec fn is_combined(c: ThreatEvidence, a: ThreatEvidence, b: ThreatEvidence) -> bool {
    &&& c.id@ == "combined-"@ + a.id@ + "-"@ + b.id@
    &&& c.timestamp == (if a.timestamp >= b.timestamp {
        a.timestamp
    } else {
        b.timestamp
    })
    &&& c.source_ip@ == (if a.source_ip@.len() > 0 {
        a.source_ip@
    } else {
        b.source_ip@
    })
    &&& c.target_ip@ == (if a.target_ip@.len() > 0 {
        a.target_ip@
    } else {
        b.target_ip@
    })
    &&& c.threat_type == (if a.threat_type != ThreatType::Unknown {
        a.threat_type
    } else {
        b.threat_type
    })
    &&& (c.threat_level == a.threat_level || c.threat_level == b.threat_level)
    &&& crate::threat_level_rank(c.threat_level) >= crate::threat_level_rank(a.threat_level)
    &&& crate::threat_level_rank(c.threat_level) >= crate::threat_level_rank(b.threat_level)
    &&& c.context@ == a.context@ + " | Combined with upstream: "@ + b.context@
    &&& c.evidence_hash@ == crate::crypto::digest16_of(
        vstd::utf8::encode_utf8(a.evidence_hash@ + "-"@ + b.evidence_hash@),
    )
    &&& c.geolocation@ == (if a.geolocation@.len() > 0 {
        a.geolocation@
    } else {
        b.geolocation@
    })
    &&& c.network_flow@ == (if a.network_flow@.len() > 0 {
        a.network_flow@
    } else {
        b.network_flow@
    })
    &&& c.agent_id@ == "combined-"@ + a.agent_id@ + "-"@ + b.agent_id@
    &&& c.reputation == (a.reputation + b.reputation) as int / 2
    &&& c.compliance_tag@ == a.compliance_tag@
    &&& c.region@ == a.region@
}

impl ConsensusEngine {
    /// Whether two evidence records describe the same event, by the
    /// correlation rule.
    fn is_correlated_evidence(&self, evidence1: &ThreatEvidence, evidence2: &ThreatEvidence) -> (r:
        bool)
        ensures
            r == correlated(*evidence1, *evidence2),
    {
        if !evidence1.source_ip.as_str().is_empty() && !evidence2.source_ip.as_str().is_empty() {
            if evidence1.source_ip == evidence2.source_ip {
                return true;
            }
        }
        if !evidence1.network_flow.as_str().is_empty()
            && !evidence2.network_flow.as_str().is_empty() {
            if evidence1.network_flow == evidence2.network_flow {
                return true;
            }
        }
        if !evidence1.context.as_str().is_empty() && !evidence2.context.as_str().is_empty() {
            if crate::strings::str_contains_sub(
                evidence1.context.as_str(),
                evidence2.context.as_str(),
            ) || crate::strings::str_contains_sub(
                evidence2.context.as_str(),
                evidence1.context.as_str(),
            ) {
                return true;
            }
        }
        false
    }

    /// Combine two correlated evidence records into one synthetic record,
    /// by the combination rule.
    fn combine_evidence(&self, evidence1: &ThreatEvidence, evidence2: &ThreatEvidence) -> (r:
        ThreatEvidence)
        requires
            evidence1.wf(),
            evidence2.wf(),
        ensures
            is_combined(r, *evidence1, *evidence2),
            r.wf(),
    {
        let mut id: String = "combined-".to_owned();
        id.append(evidence1.id.as_str());
        id.append("-");
        id.append(evidence2.id.as_str());
        assert(id@ =~= "combined-"@ + evidence1.id@ + "-"@ + evidence2.id@);

        let mut agent_id: String = "combined-".to_owned();
        agent_id.append(evidence1.agent_id.as_str());
        agent_id.append("-");
        agent_id.append(evidence2.agent_id.as_str());
        assert(agent_id@ =~= "combined-"@ + evidence1.agent_id@ + "-"@ + evidence2.agent_id@);

        let mut context = evidence1.context.clone();
        context.append(" | Combined with upstream: ");
        context.append(evidence2.context.as_str());
        assert(context@ =~= evidence1.context@ + " | Combined with upstream: "@
            + evidence2.context@);

        let mut hash_input = evidence1.evidence_hash.clone();
        hash_input.append("-");
        hash_input.append(evidence2.evidence_hash.as_str());
        assert(hash_input@ =~= evidence1.evidence_hash@ + "-"@ + evidence2.evidence_hash@);
        let evidence_hash = crate::crypto::CryptoProvider::blake3_hash(
            hash_input.as_str().as_bytes(),
        );

        ThreatEvidence {
            id,
            timestamp: if evidence1.timestamp >= evidence2.timestamp {
                evidence1.timestamp
            } else {
                evidence2.timestamp
            },
            source_ip: if !evidence1.source_ip.as_str().is_empty() {
                evidence1.source_ip.clone()
            } else {
                evidence2.source_ip.clone()
            },
            target_ip: if !evidence1.target_ip.as_str().is_empty() {
                evidence1.target_ip.clone()
            } else {
                evidence2.target_ip.clone()
            },
            threat_type: if evidence1.threat_type != ThreatType::Unknown {
                evidence1.threat_type
            } else {
                evidence2.threat_type
            },
            threat_level: crate::threat_level_max(evidence1.threat_level, evidence2.threat_level),
            context,
            evidence_hash,
            geolocation: if !evidence1.geolocation.as_str().is_empty() {
                evidence1.geolocation.clone()
            } else {
                evidence2.geolocation.clone()
            },
            network_flow: if !evidence1.network_flow.as_str().is_empty() {
                evidence1.network_flow.clone()
            } else {
                evidence2.network_flow.clone()
            },
            agent_id,
            reputation: (evidence1.reputation + evidence2.reputation) / 2,
            compliance_tag: evidence1.compliance_tag.clone(),
            region: evidence1.region.clone(),
        }
    }
}

/// The outcome of one solo-verifier round on `e`: a consensus over the
/// single local response, so the verdict, confidence and agent lists are
/// functions of the local heuristic on `e` alone.
pub open spec fn is_solo_result(
    res: ConsensusResult,
    e: ThreatEvidence,
    threshold: u64,
    agent: Seq<char>,
    now: i64,
) -> bool {
    let v = local_verdict(e);
    let k: int = if v {
        1
    } else {
        0
    };
    &&& res.evidence_id@ == e.id@
    &&& res.total_verifiers == 1
    &&& res.consensus_percentage == k * SCORE_SCALE
    &&& res.consensus_verdict == (k * SCORE_SCALE >= threshold)
    &&& res.confidence_score == local_confidence(e)
    &&& res.verified_by@.len() == (if v {
        1int
    } else {
        0int
    })
    &&& (v ==> res.verified_by@[0]@ == agent)
    &&& res.disputed_by@.len() == (if v {
        0int
    } else {
        1int
    })
    &&& (!v ==> res.disputed_by@[0]@ == agent)
    &&& res.timestamp == now
}

impl ConsensusEngine {
    /// Drive one evidence record through the solo-verifier pipeline:
    /// submit, record this node's own judgment, and compute the consensus
    /// over that single response.
    fn solo_verify(&mut self, evidence: ThreatEvidence, now: i64) -> (r: Result<
        ConsensusResult,
        AgentError,
    >)
        requires
            old(self).wf(),
            evidence.wf(),
            now >= 0,
        ensures
            final(self).wf(),
            final(self).config == old(self).config,
            final(self).local_agent_id == old(self).local_agent_id,
            r is Ok,
            is_solo_result(
                r->Ok_0,
                evidence,
                old(self).config.consensus_threshold,
                old(self).local_agent_id@,
                now,
            ),
    {
        let ghost ev = evidence;
        let request = match self.submit_for_verification(evidence, now) {
            Ok(v) => v,
            Err(e) => {
                return Err(e);
            },
        };
        let ghost s1 = self.pending_requests@;
        let ghost id = request.request_id@;
        proof {
            lemma_request_index_unique(s1, id, request_index(s1, id));
        }
        let ghost i = request_index(s1, id);

        let response = match self.verify_evidence(&request, now) {
            Ok(v) => v,
            Err(e) => {
                return Err(e);
            },
        };
        let ghost s2 = self.pending_requests@;
        proof {
            assert(response.request_id@ == id);
            assert(request_index(s1, response.request_id@) == i);
            assert(s1[i].responses@.len() == 0);
            assert(s2[i].responses@ =~= s1[i].responses@.push(response));
            assert(s2[i].request_id@ == id);
            lemma_request_index_unique(s2, id, i);
            assert(request_at(s2, id) == s2[i]);
            assert(s2[i].responses@.len() == 1);
        }

        let result = match self.check_consensus(&request.request_id, now) {
            Ok(v) => v,
            Err(e) => {
                return Err(e);
            },
        };
        proof {
            let rs = s2[i].responses@;
            assert(rs.drop_last() =~= Seq::<VerificationResponse>::empty());
            assert(rs.last() == response);
            assert(count_confirms(Seq::<VerificationResponse>::empty()) == 0);
            assert(sum_confidence(Seq::<VerificationResponse>::empty()) == 0);
            assert(confirming_agents(Seq::<VerificationResponse>::empty())
                =~= Seq::<String>::empty());
            assert(disputing_agents(Seq::<VerificationResponse>::empty())
                =~= Seq::<String>::empty());
            let v = local_verdict(ev);
            let k: int = if v {
                1
            } else {
                0
            };
            assert(count_confirms(rs) == k);
            assert(sum_confidence(rs) == local_confidence(ev));
            assert(k * SCORE_SCALE / 1 == k * SCORE_SCALE);
            assert(sum_confidence(rs) / 1 == sum_confidence(rs));
            assert((old(self).config.consensus_threshold as int) * 1
                == old(self).config.consensus_threshold as int);
            assert(s2[i].evidence_id@ == ev.id@);
            if v {
                assert(confirming_agents(rs) =~= seq![response.verifying_agent]);
                assert(disputing_agents(rs) =~= Seq::<String>::empty());
            } else {
                assert(confirming_agents(rs) =~= Seq::<String>::empty());
                assert(disputing_agents(rs) =~= seq![response.verifying_agent]);
            }
        }
        Ok(result)
    }
}

/// The correlated pairs of one local record `a` (at position `li`) with a
/// prefix of the upstream records, in upstream order.
pub open spec fn row_pairs(a: ThreatEvidence, li: int, u: Seq<ThreatEvidence>) -> Seq<(int, int)>
    decreases u.len(),
{
    if u.len() == 0 {
        Seq::empty()
    } else {
        row_pairs(a, li, u.drop_last()) + (if correlated(a, u.last()) {
            seq![(li, u.len() - 1)]
        } else {
            Seq::empty()
        })
    }
}

/// All correlated (local, upstream) index pairs, local-major, each side in
/// its input order.
pub open spec fn all_pairs(l: Seq<ThreatEvidence>, u: Seq<ThreatEvidence>) -> Seq<(int, int)>
    decreases l.len(),
{
    if l.len() == 0 {
        Seq::empty()
    } else {
        all_pairs(l.drop_last(), u) + row_pairs(l.last(), l.len() - 1, u)
    }
}

/// Some local record correlates with `b`.
pub open spec fn matches_any(l: Seq<ThreatEvidence>, b: ThreatEvidence) -> bool {
    exists|i: int| 0 <= i < l.len() && correlated(#[trigger] l[i], b)
}

/// The positions of the upstream records that correlate with no local
/// record, in upstream order.
pub open spec fn uncorrelated_indices(l: Seq<ThreatEvidence>, u: Seq<ThreatEvidence>) -> Seq<int>
    decreases u.len(),
{
    if u.len() == 0 {
        Seq::empty()
    } else {
        uncorrelated_indices(l, u.drop_last()) + (if !matches_any(l, u.last()) {
            seq![u.len() - 1]
        } else {
            Seq::empty()
        })
    }
}

/// `out` holds, pair for pair, the combined record and solo-verifier
/// outcome of each index pair in `pairs`.
pub open spec fn pairs_match(
    out: Seq<(ThreatEvidence, ConsensusResult)>,
    pairs: Seq<(int, int)>,
    l: Seq<ThreatEvidence>,
    u: Seq<ThreatEvidence>,
    threshold: u64,
    agent: Seq<char>,
    now: i64,
) -> bool {
    &&& out.len() == pairs.len()
    &&& forall|p: int|
        0 <= p < pairs.len() ==> {
            let li = (#[trigger] pairs[p]).0;
            let uj = pairs[p].1;
            &&& 0 <= li < l.len()
            &&& 0 <= uj < u.len()
            &&& correlated(l[li], u[uj])
            &&& is_combined(out[p].0, l[li], u[uj])
            &&& is_solo_result(out[p].1, out[p].0, threshold, agent, now)
        }
}

/// `out` holds, entry for entry, each upstream record named in `unc` and
/// its solo-verifier outcome.
pub open spec fn uncs_match(
    out: Seq<(ThreatEvidence, ConsensusResult)>,
    unc: Seq<int>,
    l: Seq<ThreatEvidence>,
    u: Seq<ThreatEvidence>,
    threshold: u64,
    agent: Seq<char>,
    now: i64,
) -> bool {
    &&& out.len() == unc.len()
    &&& forall|q: int|
        0 <= q < unc.len() ==> {
            let uj = #[trigger] unc[q];
            &&& 0 <= uj < u.len()
            &&& !matches_any(l, u[uj])
            &&& out[q].0 == u[uj]
            &&& is_solo_result(out[q].1, u[uj], threshold, agent, now)
        }
}

/// The full contract of the correlation pipeline's output: first every
/// correlated pair's combined record with its solo-verifier outcome, in
/// local-major order, then every upstream record that correlated with
/// nothing, in upstream order, with its own outcome.
pub open spec fn correlation_output(
    out: Seq<(ThreatEvidence, ConsensusResult)>,
    l: Seq<ThreatEvidence>,
    u: Seq<ThreatEvidence>,
    threshold: u64,
    agent: Seq<char>,
    now: i64,
) -> bool {
    let pairs = all_pairs(l, u);
    let unc = uncorrelated_indices(l, u);
    &&& out.len() == pairs.len() + unc.len()
    &&& pairs_match(out.subrange(0, pairs.len() as int), pairs, l, u, threshold, agent, now)
    &&& uncs_match(
        out.subrange(pairs.len() as int, out.len() as int),
        unc,
        l,
        u,
        threshold,
        agent,
        now,
    )
}

impl ConsensusEngine {
    /// Whether any record in `local` correlates with `item`.
    fn any_correlated(&self, local: &Vec<ThreatEvidence>, item: &ThreatEvidence) -> (r: bool)
        ensures
            r == matches_any(local@, *item),
    {
        let mut i: usize = 0;
        while i < local.len()
            invariant
                i <= local@.len(),
                forall|j: int| 0 <= j < i ==> !correlated(#[trigger] local@[j], *item),
            decreases local@.len() - i,
        {
            if self.is_correlated_evidence(&local[i], item) {
                return true;
            }
            i = i + 1;
        }
        false
    }

    /// Correlate local with upstream evidence and drive the results
    /// through the solo-verifier pipeline: every correlated local and
    /// upstream pair yields its combined record with a consensus outcome,
    /// and every upstream record that correlated with nothing is verified
    /// individually; local records that correlate with nothing are
    /// dropped.
    pub fn process_evidence_correlation(
        &mut self,
        local_evidence: &Vec<ThreatEvidence>,
        upstream_evidence: &Vec<ThreatEvidence>,
        now: i64,
    ) -> (r: Result<Vec<(ThreatEvidence, ConsensusResult)>, AgentError>)
        requires
            old(self).wf(),
            forall|i: int|
                0 <= i < local_evidence@.len() ==> (#[trigger] local_evidence@[i]).wf(),
            forall|i: int|
                0 <= i < upstream_evidence@.len() ==> (#[trigger] upstream_evidence@[i]).wf(),
            now >= 0,
        ensures
            final(self).wf(),
            final(self).config == old(self).config,
            final(self).local_agent_id == old(self).local_agent_id,
            r is Ok,
            correlation_output(
                r->Ok_0@,
                local_evidence@,
                upstream_evidence@,
                old(self).config.consensus_threshold,
                old(self).local_agent_id@,
                now,
            ),
    {
        let ghost l = local_evidence@;
        let ghost u = upstream_evidence@;
        let ghost thr = old(self).config.consensus_threshold;
        let ghost agent = old(self).local_agent_id@;
        let mut correlated_results: Vec<(ThreatEvidence, ConsensusResult)> = Vec::new();

        proof {
            assert(all_pairs(l.subrange(0, 0), u) =~= Seq::<(int, int)>::empty());
        }

        let mut li: usize = 0;
        while li < local_evidence.len()
            invariant
                li <= l.len(),
                l == local_evidence@,
                u == upstream_evidence@,
                self.wf(),
                self.config == old(self).config,
                self.local_agent_id == old(self).local_agent_id,
                thr == old(self).config.consensus_threshold,
                agent == old(self).local_agent_id@,
                forall|i: int| 0 <= i < l.len() ==> (#[trigger] l[i]).wf(),
                forall|i: int| 0 <= i < u.len() ==> (#[trigger] u[i]).wf(),
                now >= 0,
                pairs_match(
                    correlated_results@,
                    all_pairs(l.subrange(0, li as int), u),
                    l,
                    u,
                    thr,
                    agent,
                    now,
                ),
            decreases l.len() - li,
        {
            proof {
                assert(row_pairs(l[li as int], li as int, u.subrange(0, 0))
                    =~= Seq::<(int, int)>::empty());
            }
            let mut uj: usize = 0;
            while uj < upstream_evidence.len()
                invariant
                    li < l.len(),
                    uj <= u.len(),
                    l == local_evidence@,
                    u == upstream_evidence@,
                    self.wf(),
                    self.config == old(self).config,
                    self.local_agent_id == old(self).local_agent_id,
                    thr == old(self).config.consensus_threshold,
                    agent == old(self).local_agent_id@,
                    forall|i: int| 0 <= i < l.len() ==> (#[trigger] l[i]).wf(),
                    forall|i: int| 0 <= i < u.len() ==> (#[trigger] u[i]).wf(),
                    now >= 0,
                    pairs_match(
                        correlated_results@,
                        all_pairs(l.subrange(0, li as int), u) + row_pairs(
                            l[li as int],
                            li as int,
                            u.subrange(0, uj as int),
                        ),
                        l,
                        u,
                        thr,
                        agent,
                        now,
                    ),
                decreases u.len() - uj,
            {
                let ghost base = all_pairs(l.subrange(0, li as int), u);
                let ghost row_before = row_pairs(l[li as int], li as int, u.subrange(0, uj as int));
                let ghost delta = if correlated(l[li as int], u[uj as int]) {
                    seq![(li as int, uj as int)]
                } else {
                    Seq::<(int, int)>::empty()
                };
                proof {
                    let next = u.subrange(0, uj + 1);
                    assert(next.drop_last() =~= u.subrange(0, uj as int));
                    assert(next.last() == u[uj as int]);
                    assert(next.len() - 1 == uj as int);
                    assert(row_pairs(l[li as int], li as int, next) == row_before + delta);
                    assert(base + (row_before + delta) =~= (base + row_before) + delta);
                }
                if self.is_correlated_evidence(&local_evidence[li], &upstream_evidence[uj]) {
                    let combined = self.combine_evidence(
                        &local_evidence[li],
                        &upstream_evidence[uj],
                    );
                    let combined_copy = combined.duplicate();
                    let consensus_result = match self.solo_verify(combined, now) {
                        Ok(v) => v,
                        Err(e) => {
                            return Err(e);
                        },
                    };
                    correlated_results.push((combined_copy, consensus_result));
                }
                proof {
                    assert(pairs_match(
                        correlated_results@,
                        all_pairs(l.subrange(0, li as int), u) + row_pairs(
                            l[li as int],
                            li as int,
                            u.subrange(0, uj + 1),
                        ),
                        l,
                        u,
                        thr,
                        agent,
                        now,
                    ));
                }
                uj = uj + 1;
            }
            proof {
                assert(u.subrange(0, u.len() as int) =~= u);
                let next = l.subrange(0, li + 1);
                assert(next.drop_last() =~= l.subrange(0, li as int));
                assert(next.last() == l[li as int]);
                assert(all_pairs(l.subrange(0, li + 1), u) == all_pairs(l.subrange(0, li as int), u)
                    + row_pairs(l[li as int], li as int, u));
            }
            li = li + 1;
        }
        proof {
            assert(l.subrange(0, l.len() as int) =~= l);
        }
        let ghost pairs = all_pairs(l, u);
        let ghost pairs_out = correlated_results@;

        proof {
            assert(uncorrelated_indices(l, u.subrange(0, 0)) =~= Seq::<int>::empty());
            assert(correlated_results@.subrange(pairs.len() as int, correlated_results@.len() as int)
                =~= Seq::<(ThreatEvidence, ConsensusResult)>::empty());
        }

        let mut uj: usize = 0;
        while uj < upstream_evidence.len()
            invariant
                uj <= u.len(),
                l == local_evidence@,
                u == upstream_evidence@,
                self.wf(),
                self.config == old(self).config,
                self.local_agent_id == old(self).local_agent_id,
                thr == old(self).config.consensus_threshold,
                agent == old(self).local_agent_id@,
                forall|i: int| 0 <= i < l.len() ==> (#[trigger] l[i]).wf(),
                forall|i: int| 0 <= i < u.len() ==> (#[trigger] u[i]).wf(),
                now >= 0,
                pairs == all_pairs(l, u),
                correlated_results@.len() >= pairs.len(),
                correlated_results@.subrange(0, pairs.len() as int) == pairs_out,
                pairs_match(pairs_out, pairs, l, u, thr, agent, now),
                uncs_match(
                    correlated_results@.subrange(
                        pairs.len() as int,
                        correlated_results@.len() as int,
                    ),
                    uncorrelated_indices(l, u.subrange(0, uj as int)),
                    l,
                    u,
                    thr,
                    agent,
                    now,
                ),
            decreases u.len() - uj,
        {
            let ghost tail_before = correlated_results@.subrange(
                pairs.len() as int,
                correlated_results@.len() as int,
            );
            proof {
                let next = u.subrange(0, uj + 1);
                assert(next.drop_last() =~= u.subrange(0, uj as int));
                assert(next.last() == u[uj as int]);
            }
            let found = self.any_correlated(local_evidence, &upstream_evidence[uj]);
            if !found {
                let item_copy = upstream_evidence[uj].duplicate();
                let item_for_pipeline = upstream_evidence[uj].duplicate();
                let consensus_result = match self.solo_verify(item_for_pipeline, now) {
                    Ok(v) => v,
                    Err(e) => {
                        return Err(e);
                    },
                };
                correlated_results.push((item_copy, consensus_result));
                proof {
                    assert(correlated_results@.subrange(0, pairs.len() as int) =~= pairs_out);
                    assert(correlated_results@.subrange(
                        pairs.len() as int,
                        correlated_results@.len() as int,
                    ) =~= tail_before.push(
                        correlated_results@[correlated_results@.len() - 1],
                    ));
                }
            }
            proof {
                assert(uncs_match(
                    correlated_results@.subrange(
                        pairs.len() as int,
                        correlated_results@.len() as int,
                    ),
                    uncorrelated_indices(l, u.subrange(0, uj + 1)),
                    l,
                    u,
                    thr,
                    agent,
                    now,
                ));
            }
            uj = uj + 1;
        }
        proof {
            assert(u.subrange(0, u.len() as int) =~= u);
        }
        Ok(correlated_results)
    }
}

/// Every element of a filtered sequence occurs in the original.
proof fn lemma_filter_element_of<A>(s: Seq<A>, pred: spec_fn(A) -> bool, i: int)
    requires
        0 <= i < s.filter(pred).len(),
    ensures
        exists|o: int| 0 <= o < s.len() && s[o] == s.filter(pred)[i],
    decreases s.len(),
{
    reveal(Seq::filter);
    if s.len() > 0 {
        let fb = s.drop_last().filter(pred);
        if pred(s.last()) && i == s.filter(pred).len() - 1 {
            assert(s[s.len() - 1] == s.filter(pred)[i]);
        } else {
            lemma_filter_element_of(s.drop_last(), pred, i);
            let o = choose|o: int|
                0 <= o < s.drop_last().len() && s.drop_last()[o] == fb[i];
            assert(s[o] == s.filter(pred)[i]);
        }
    }
}

} // verus!
