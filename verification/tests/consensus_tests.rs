use orasrs_agent::consensus_verification::{
    ConsensusConfig, ConsensusEngine, VerificationResponse, VerificationStatus,
};
use orasrs_agent::crypto::CryptoProvider;
use orasrs_agent::error::AgentError;
use orasrs_agent::{ThreatEvidence, ThreatLevel, ThreatType};

const NOW: i64 = 1700000000;

fn test_evidence() -> ThreatEvidence {
    ThreatEvidence {
        id: "test-evidence".to_string(),
        timestamp: NOW,
        source_ip: "192.168.1.100".to_string(),
        target_ip: "10.0.0.1".to_string(),
        threat_type: ThreatType::Malware,
        threat_level: ThreatLevel::Critical,
        context: "Test threat evidence".to_string(),
        evidence_hash: CryptoProvider::blake3_hash(b"test-data"),
        geolocation: "unknown".to_string(),
        network_flow: "TCP".to_string(),
        agent_id: "test-agent".to_string(),
        reputation: 9000,
        compliance_tag: "global".to_string(),
        region: "test-region".to_string(),
    }
}

fn test_evidence_with_ip(ip: &str) -> ThreatEvidence {
    let mut e = test_evidence();
    e.source_ip = ip.to_string();
    e.context = "Test threat evidence for correlation".to_string();
    e
}

#[test]
fn consensus_verification_test_consensus_engine_creation() {
    let config = ConsensusConfig::default();
    let engine = ConsensusEngine::new(config, "test-agent".to_string());

    assert_eq!(engine.get_config().min_verifiers, 3);
}

#[test]
fn orasrs_protocol_tests_test_consensus_engine_creation() {
    let config = ConsensusConfig::default();
    let engine = ConsensusEngine::new(config, "test-agent".to_string());

    assert_eq!(engine.get_config().min_verifiers, 3);
    assert_eq!(engine.get_config().consensus_threshold, 6000);
}

#[test]
fn test_submit_for_verification() {
    let config = ConsensusConfig::default();
    let mut engine = ConsensusEngine::new(config, "test-agent".to_string());

    let result = engine.submit_for_verification(test_evidence(), NOW);
    assert!(result.is_ok());
}

#[test]
fn test_consensus_engine() {
    let config = ConsensusConfig::default();
    let mut engine = ConsensusEngine::new(config, "test-agent".to_string());

    let evidence = test_evidence();
    let request = engine.submit_for_verification(evidence.clone(), NOW).unwrap();
    assert_eq!(request.evidence_id, evidence.id);

    let response = engine.verify_evidence(&request, NOW).unwrap();
    assert_eq!(response.evidence_id, evidence.id);

    let result = engine.check_consensus(&request.request_id, NOW).unwrap();
    assert_eq!(result.evidence_id, evidence.id);
}

#[test]
fn test_consensus_process_evidence() {
    let config = ConsensusConfig::default();
    let mut engine = ConsensusEngine::new(config, "test-agent".to_string());

    let evidence = test_evidence();
    let request = engine.submit_for_verification(evidence.clone(), NOW).unwrap();
    assert_eq!(request.evidence_id, evidence.id);

    let response = engine.verify_evidence(&request, NOW).unwrap();
    assert_eq!(response.evidence_id, evidence.id);

    let result = engine.check_consensus(&request.request_id, NOW).unwrap();
    assert_eq!(result.evidence_id, evidence.id);
    assert!(result.confidence_score <= 10000);
}

#[test]
fn test_consensus_correlation() {
    let config = ConsensusConfig::default();
    let mut engine = ConsensusEngine::new(config, "test-agent".to_string());

    let local_evidence = test_evidence_with_ip("192.168.1.100");
    let upstream_evidence = vec![
        test_evidence_with_ip("192.168.1.100"),
        test_evidence_with_ip("10.0.0.50"),
    ];

    let correlations = engine
        .process_evidence_correlation(&vec![local_evidence], &upstream_evidence, NOW)
        .unwrap();

    assert!(!correlations.is_empty());

    let (combined_evidence, consensus_result) = &correlations[0];
    assert!(combined_evidence.context.contains("Combined with upstream"));
    assert!(consensus_result.confidence_score <= 10000);
}

// Two records with the same source IP correlate; the combined record takes
// the higher severity and the joined id.
#[test]
fn test_self_correlating_evidence() {
    let config = ConsensusConfig::default();
    let mut engine = ConsensusEngine::new(config, "local-node".to_string());

    let mut local = test_evidence_with_ip("203.0.113.5");
    local.id = "local-1".to_string();
    local.threat_level = ThreatLevel::Warning;
    let mut upstream = test_evidence_with_ip("203.0.113.5");
    upstream.id = "up-9".to_string();
    upstream.threat_level = ThreatLevel::Emergency;

    let correlations = engine
        .process_evidence_correlation(&vec![local], &vec![upstream], NOW)
        .unwrap();

    assert_eq!(correlations.len(), 1);
    let (combined, _) = &correlations[0];
    assert_eq!(combined.threat_level, ThreatLevel::Emergency);
    assert_eq!(combined.id, "combined-local-1-up-9");
}

fn peer_response(request_id: &str, agent: &str, verdict: bool, confidence: u64) -> VerificationResponse {
    VerificationResponse {
        request_id: request_id.to_string(),
        evidence_id: "test-evidence".to_string(),
        verifying_agent: agent.to_string(),
        verdict,
        confidence,
        justification: "peer judgment".to_string(),
        timestamp: NOW,
        signature: "peer-signature".to_string(),
    }
}

// Quorum reached: three responses with verdicts [true, true, false] and
// confidences [0.9, 0.8, 0.4] give a positive verdict with a two-thirds
// share and a mean confidence of 0.7.
#[test]
fn test_quorum_reached() {
    let config = ConsensusConfig::default();
    let mut engine = ConsensusEngine::new(config, "local-node".to_string());

    let request = engine.submit_for_verification(test_evidence(), NOW).unwrap();
    engine.record_response(peer_response(&request.request_id, "peer-a", true, 9000));
    engine.record_response(peer_response(&request.request_id, "peer-b", true, 8000));
    engine.record_response(peer_response(&request.request_id, "peer-c", false, 4000));

    let result = engine.check_consensus(&request.request_id, NOW).unwrap();
    assert_eq!(result.total_verifiers, 3);
    assert_eq!(result.consensus_percentage, 6666);
    assert!(result.consensus_verdict);
    assert_eq!(result.confidence_score, 7000);
    assert_eq!(result.verified_by, vec!["peer-a".to_string(), "peer-b".to_string()]);
    assert_eq!(result.disputed_by, vec!["peer-c".to_string()]);
}

// The consensus percentage is the exact fixed-point ratio of
// confirmations to responses, and the verdict compares it to the
// threshold.
#[test]
fn test_consensus_percentage_exact() {
    let config = ConsensusConfig::default();
    let mut engine = ConsensusEngine::new(config, "local-node".to_string());

    let request = engine.submit_for_verification(test_evidence(), NOW).unwrap();
    engine.record_response(peer_response(&request.request_id, "peer-a", true, 5000));
    engine.record_response(peer_response(&request.request_id, "peer-b", false, 5000));
    engine.record_response(peer_response(&request.request_id, "peer-c", false, 5000));

    let result = engine.check_consensus(&request.request_id, NOW).unwrap();
    assert_eq!(result.consensus_percentage, 3333);
    assert!(!result.consensus_verdict);
    assert_eq!(result.confidence_score, 5000);
}

// No responses: consensus on a freshly submitted request fails with the
// no-data condition.
#[test]
fn test_no_responses() {
    let config = ConsensusConfig::default();
    let mut engine = ConsensusEngine::new(config, "local-node".to_string());

    let request = engine.submit_for_verification(test_evidence(), NOW).unwrap();
    let result = engine.check_consensus(&request.request_id, NOW);
    assert!(matches!(result, Err(AgentError::NoData(_))));
}

#[test]
fn test_check_consensus_unknown_id() {
    let config = ConsensusConfig::default();
    let mut engine = ConsensusEngine::new(config, "local-node".to_string());

    let result = engine.check_consensus(&"consensus-missing".to_string(), NOW);
    assert!(matches!(result, Err(AgentError::NotFound(_))));
}

// Reading the cache twice without an intervening consensus computation
// returns the same value both times.
#[test]
fn test_cached_result_idempotent() {
    let config = ConsensusConfig::default();
    let mut engine = ConsensusEngine::new(config, "local-node".to_string());

    let evidence = test_evidence();
    assert!(engine.get_cached_result(&evidence.id).is_none());

    let request = engine.submit_for_verification(evidence.clone(), NOW).unwrap();
    engine.verify_evidence(&request, NOW).unwrap();
    let result = engine.check_consensus(&request.request_id, NOW).unwrap();

    let first = engine.get_cached_result(&evidence.id).unwrap();
    let second = engine.get_cached_result(&evidence.id).unwrap();
    assert_eq!(first.consensus_percentage, second.consensus_percentage);
    assert_eq!(first.consensus_verdict, second.consensus_verdict);
    assert_eq!(first.confidence_score, second.confidence_score);
    assert_eq!(first.evidence_id, result.evidence_id);
}

#[test]
fn test_cleanup_old_requests() {
    let config = ConsensusConfig::default();
    let mut engine = ConsensusEngine::new(config, "local-node".to_string());

    let request = engine.submit_for_verification(test_evidence(), NOW).unwrap();
    // Within the 30-second timeout the request survives.
    engine.cleanup_old_requests(NOW + 10).unwrap();
    assert!(matches!(
        engine.check_consensus(&request.request_id, NOW),
        Err(AgentError::NoData(_))
    ));

    // Past the timeout it is swept away, whatever its status.
    engine.cleanup_old_requests(NOW + 31).unwrap();
    assert!(matches!(
        engine.check_consensus(&request.request_id, NOW),
        Err(AgentError::NotFound(_))
    ));
}

#[test]
fn test_request_ids_fresh_and_prefixed() {
    let config = ConsensusConfig::default();
    let mut engine = ConsensusEngine::new(config, "local-node".to_string());

    let r1 = engine.submit_for_verification(test_evidence(), NOW).unwrap();
    let r2 = engine.submit_for_verification(test_evidence(), NOW).unwrap();
    assert!(r1.request_id.starts_with("consensus-"));
    assert!(r2.request_id.starts_with("consensus-"));
    assert_eq!(r1.request_id.chars().count(), 46);
    assert_ne!(r1.request_id, r2.request_id);
}

// The local verification heuristic on a critical malware report from a
// known bad IP: all bonuses fire and the confidence clamps to 1.0.
#[test]
fn test_local_verify_evidence_exact() {
    let config = ConsensusConfig::default();
    let engine = ConsensusEngine::new(config, "local-node".to_string());

    let evidence = test_evidence();
    let (verdict, confidence, justification) = engine.local_verify_evidence(&evidence);
    assert!(verdict);
    assert_eq!(confidence, 10000);
    assert_eq!(justification, "Known threat IP; Calculated confidence: 1.00");
}

// The heuristic on an info-level report from an unknown agent and IP:
// only the base and the catch-all category bonus apply.
#[test]
fn test_local_verify_evidence_low() {
    let config = ConsensusConfig::default();
    let engine = ConsensusEngine::new(config, "local-node".to_string());

    let mut evidence = test_evidence();
    evidence.source_ip = "198.51.100.7".to_string();
    evidence.threat_level = ThreatLevel::Info;
    evidence.threat_type = ThreatType::Phishing;
    let (verdict, confidence, justification) = engine.local_verify_evidence(&evidence);
    assert!(!verdict);
    assert_eq!(confidence, 4500);
    assert_eq!(justification, "Calculated confidence: 0.45");
}

// An upstream-tagged agent raises the heuristic's confidence and is named
// in the justification.
#[test]
fn test_local_verify_evidence_upstream() {
    let config = ConsensusConfig::default();
    let engine = ConsensusEngine::new(config, "local-node".to_string());

    let mut evidence = test_evidence();
    evidence.source_ip = "198.51.100.7".to_string();
    evidence.agent_id = "upstream-CISA_AIS".to_string();
    evidence.threat_level = ThreatLevel::Warning;
    evidence.threat_type = ThreatType::DDoS;
    let (verdict, confidence, justification) = engine.local_verify_evidence(&evidence);
    // 0.5 + 0.2 (upstream) + 0.1 (warning) + 0.15 (ddos) = 0.95
    assert!(verdict);
    assert_eq!(confidence, 9500);
    assert_eq!(
        justification,
        "Upstream source: upstream-CISA_AIS; Calculated confidence: 0.95"
    );
}

// A request starts pending, moves to in-progress once the quorum of
// responses arrives, and ends in a terminal consensus status.
#[test]
fn test_request_status_machine() {
    let config = ConsensusConfig::default();
    let mut engine = ConsensusEngine::new(config, "local-node".to_string());

    let request = engine.submit_for_verification(test_evidence(), NOW).unwrap();
    assert_eq!(request.status, VerificationStatus::Pending);
    assert_eq!(engine.pending_requests[0].status, VerificationStatus::Pending);

    engine.record_response(peer_response(&request.request_id, "peer-a", true, 9000));
    assert_eq!(engine.pending_requests[0].status, VerificationStatus::Pending);
    engine.record_response(peer_response(&request.request_id, "peer-b", true, 9000));
    assert_eq!(engine.pending_requests[0].status, VerificationStatus::Pending);
    engine.record_response(peer_response(&request.request_id, "peer-c", true, 9000));
    assert_eq!(engine.pending_requests[0].status, VerificationStatus::InProgress);

    engine.check_consensus(&request.request_id, NOW).unwrap();
    assert_eq!(
        engine.pending_requests[0].status,
        VerificationStatus::ConsensusReached
    );
}

// A failed consensus leaves the terminal failed status on the request.
#[test]
fn test_request_status_consensus_failed() {
    let config = ConsensusConfig::default();
    let mut engine = ConsensusEngine::new(config, "local-node".to_string());

    let request = engine.submit_for_verification(test_evidence(), NOW).unwrap();
    engine.record_response(peer_response(&request.request_id, "peer-a", false, 2000));
    let result = engine.check_consensus(&request.request_id, NOW).unwrap();
    assert!(!result.consensus_verdict);
    assert_eq!(
        engine.pending_requests[0].status,
        VerificationStatus::ConsensusFailed
    );
}

#[test]
fn test_combined_evidence_fields() {
    let config = ConsensusConfig::default();
    let mut engine = ConsensusEngine::new(config, "local-node".to_string());

    let mut local = test_evidence_with_ip("203.0.113.5");
    local.id = "a".to_string();
    local.agent_id = "agent-a".to_string();
    local.timestamp = NOW;
    local.reputation = 8000;
    let mut upstream = test_evidence_with_ip("203.0.113.5");
    upstream.id = "b".to_string();
    upstream.agent_id = "agent-b".to_string();
    upstream.timestamp = NOW + 5;
    upstream.reputation = 9000;

    let correlations = engine
        .process_evidence_correlation(&vec![local], &vec![upstream], NOW + 10)
        .unwrap();
    let (combined, _) = &correlations[0];
    assert_eq!(combined.id, "combined-a-b");
    assert_eq!(combined.agent_id, "combined-agent-a-agent-b");
    assert_eq!(combined.timestamp, NOW + 5);
    assert_eq!(combined.reputation, 8500);
    assert_eq!(combined.evidence_hash.len(), 16);
}
