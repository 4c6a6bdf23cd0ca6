use orasrs_agent::credibility_enhancement::{CredibilityConfig, CredibilityEngine};
use orasrs_agent::crypto::CryptoProvider;
use orasrs_agent::{ThreatEvidence, ThreatLevel, ThreatType};

const NOW: i64 = 1700000000;

fn test_evidence() -> ThreatEvidence {
    ThreatEvidence {
        id: "test".to_string(),
        timestamp: NOW,
        source_ip: "192.168.1.100".to_string(),
        target_ip: "10.0.0.1".to_string(),
        threat_type: ThreatType::Malware,
        threat_level: ThreatLevel::Critical,
        context: "Test threat".to_string(),
        evidence_hash: CryptoProvider::blake3_hash(b"test"),
        geolocation: "unknown".to_string(),
        network_flow: "TCP".to_string(),
        agent_id: "test-agent".to_string(),
        reputation: 8000,
        compliance_tag: "global".to_string(),
        region: "test".to_string(),
    }
}

#[test]
fn credibility_enhancement_test_credibility_engine_creation() {
    let config = CredibilityConfig::default();
    let engine = CredibilityEngine::new(config);

    assert_eq!(engine.config.source_reputation_weight, 3000);
}

#[test]
fn orasrs_protocol_tests_test_credibility_engine_creation() {
    let config = CredibilityConfig::default();
    let engine = CredibilityEngine::new(config);

    assert_eq!(engine.config.source_reputation_weight, 3000);
    assert_eq!(engine.config.high_confidence_threshold, 8000);
}

#[test]
fn test_calculate_credibility_score() {
    let config = CredibilityConfig::default();
    let engine = CredibilityEngine::new(config);

    let evidence = test_evidence();
    let score = engine
        .calculate_credibility_score(&evidence, Some(9000), NOW)
        .unwrap();
    assert!(score <= 10000);
}

#[test]
fn test_update_credibility() {
    let config = CredibilityConfig::default();
    let mut engine = CredibilityEngine::new(config);

    let mut evidence = test_evidence();
    evidence.source_ip = "192.168.1.101".to_string();
    evidence.agent_id = "test-agent-2".to_string();

    // Initially should have default reputation
    let initial_rep = engine.get_source_reputation(&"test-agent-2".to_string());
    assert_eq!(initial_rep, 7000);

    // Update with accurate information
    engine.update_credibility(&evidence, true).unwrap();

    // Should have higher reputation now
    let updated_rep = engine.get_source_reputation(&"test-agent-2".to_string());
    assert!(updated_rep > 7000);
}

#[test]
fn test_credibility_engine() {
    let config = CredibilityConfig::default();
    let mut engine = CredibilityEngine::new(config);

    let evidence = test_evidence();

    let initial_score = engine
        .calculate_credibility_score(&evidence, Some(9000), NOW)
        .unwrap();
    assert!(initial_score <= 10000);

    engine.update_credibility(&evidence, true).unwrap();

    let updated_score = engine
        .calculate_credibility_score(&evidence, Some(9000), NOW)
        .unwrap();
    assert!(updated_score <= 10000);

    let enhanced = engine
        .enhance_threat_evidence(evidence, Some(9000), NOW)
        .unwrap();
    assert!(enhanced.reputation <= 10000);
}

#[test]
fn test_credibility_calculation() {
    let config = CredibilityConfig::default();
    let engine = CredibilityEngine::new(config);

    let evidence = test_evidence();

    let score = engine
        .calculate_credibility_score(&evidence, Some(9000), NOW)
        .unwrap();
    assert!(score <= 10000);

    let score2 = engine.calculate_credibility_score(&evidence, None, NOW).unwrap();
    assert!(score2 <= 10000);
}

// The exact composite score on a fresh engine: source default 0.7, IP
// default 0.5, history default 0.7, no consensus, fresh evidence.
#[test]
fn test_credibility_score_exact() {
    let config = CredibilityConfig::default();
    let engine = CredibilityEngine::new(config);
    let evidence = test_evidence();

    // (7000*3000 + 5000*2500 + 7000*2500) / 8000 = 6375
    let score = engine.calculate_credibility_score(&evidence, None, NOW).unwrap();
    assert_eq!(score, 6375);

    // Adding a consensus confidence of 0.9 raises the mean:
    // (51_000_000 + 9000*2000) / 10000 = 6900
    let with_consensus = engine
        .calculate_credibility_score(&evidence, Some(9000), NOW)
        .unwrap();
    assert_eq!(with_consensus, 6900);

    // Stale evidence is damped by the recency factor: 6375 * 0.5 = 3187.
    let stale = engine
        .calculate_credibility_score(&evidence, None, NOW + 86401)
        .unwrap();
    assert_eq!(stale, 3187);
}

// An upstream source overrides the stored reputation with a fixed 0.9.
#[test]
fn test_upstream_source_reputation() {
    let config = CredibilityConfig::default();
    let engine = CredibilityEngine::new(config);
    assert_eq!(
        engine.get_source_reputation(&"upstream-CISA_AIS".to_string()),
        9000
    );
    assert_eq!(engine.get_ip_reputation(&"203.0.113.9".to_string()), 5000);
}

// The score stays within [0, 1] under unusual weight configurations.
#[test]
fn test_score_in_range_any_weights() {
    let mut config = CredibilityConfig::default();
    config.source_reputation_weight = 0;
    config.ip_reputation_weight = 0;
    config.historical_accuracy_weight = 0;
    config.consensus_weight = 0;
    let engine = CredibilityEngine::new(config);
    let evidence = test_evidence();
    let score = engine.calculate_credibility_score(&evidence, None, NOW).unwrap();
    assert_eq!(score, 0);

    let mut heavy = CredibilityConfig::default();
    heavy.source_reputation_weight = 10000;
    heavy.ip_reputation_weight = 10000;
    heavy.historical_accuracy_weight = 10000;
    heavy.consensus_weight = 10000;
    let engine2 = CredibilityEngine::new(heavy);
    let score2 = engine2
        .calculate_credibility_score(&evidence, Some(10000), NOW)
        .unwrap();
    assert!(score2 <= 10000);
}

// Round trip of the severity adjustment: a high-confidence score keeps
// the severity, a low one forces Info, a medium one steps down once.
#[test]
fn test_enhance_round_trip() {
    let config = CredibilityConfig::default();
    let engine = CredibilityEngine::new(config);

    assert_eq!(
        engine.adjust_threat_level_by_credential(ThreatLevel::Emergency, 8000),
        ThreatLevel::Emergency
    );
    assert_eq!(
        engine.adjust_threat_level_by_credential(ThreatLevel::Emergency, 6000),
        ThreatLevel::Critical
    );
    assert_eq!(
        engine.adjust_threat_level_by_credential(ThreatLevel::Critical, 7999),
        ThreatLevel::Warning
    );
    assert_eq!(
        engine.adjust_threat_level_by_credential(ThreatLevel::Info, 6500),
        ThreatLevel::Info
    );
    assert_eq!(
        engine.adjust_threat_level_by_credential(ThreatLevel::Emergency, 5999),
        ThreatLevel::Info
    );
    assert_eq!(
        engine.adjust_threat_level_by_credential(ThreatLevel::Warning, 0),
        ThreatLevel::Info
    );
}

// Enhancement adjusts the severity, overwrites the reputation with the
// score and appends the credibility annotation.
#[test]
fn test_enhance_threat_evidence_fields() {
    let config = CredibilityConfig::default();
    let engine = CredibilityEngine::new(config);
    let evidence = test_evidence();

    let enhanced = engine.enhance_threat_evidence(evidence, None, NOW).unwrap();
    // Score 6375 is medium confidence: Critical steps down to Warning.
    assert_eq!(enhanced.threat_level, ThreatLevel::Warning);
    assert_eq!(enhanced.reputation, 6375);
    assert_eq!(enhanced.context, "Test threat [CREDIBILITY: 0.64]");
    assert!(enhanced.context.contains("CREDIBILITY"));
    assert_eq!(enhanced.id, "test");
}

#[test]
fn test_batch_enhance_threat_evidence() {
    let config = CredibilityConfig::default();
    let engine = CredibilityEngine::new(config);

    let batch = vec![
        (test_evidence(), None),
        (test_evidence(), Some(9000u64)),
    ];
    let enhanced = engine.batch_enhance_threat_evidence(batch, NOW).unwrap();
    assert_eq!(enhanced.len(), 2);
    assert_eq!(enhanced[0].reputation, 6375);
    assert_eq!(enhanced[1].reputation, 6900);
}

// Repeated accurate reports drive a fresh agent's reputation monotonically
// toward 1.0 without ever exceeding it.
#[test]
fn test_reputation_convergence() {
    let config = CredibilityConfig::default();
    let mut engine = CredibilityEngine::new(config);
    let evidence = test_evidence();

    let mut previous = engine.get_source_reputation(&evidence.agent_id);
    assert_eq!(previous, 7000);
    for _ in 0..200 {
        engine.update_credibility(&evidence, true).unwrap();
        let current = engine.get_source_reputation(&evidence.agent_id);
        assert!(current >= previous);
        assert!(current <= 10000);
        previous = current;
    }
    assert!(previous > 9900);
}

// Inaccurate reports lower the reputation and the category accuracy.
#[test]
fn test_update_credibility_inaccurate() {
    let config = CredibilityConfig::default();
    let mut engine = CredibilityEngine::new(config);
    let evidence = test_evidence();

    engine.update_credibility(&evidence, false).unwrap();
    // One EMA step down from the 0.7 seed: 0.7 * 0.9 = 0.63.
    assert_eq!(engine.get_source_reputation(&evidence.agent_id), 6300);
    // IP seed 0.5 stepped down with weight 0.05: 0.5 * 0.95 = 0.475.
    assert_eq!(engine.get_ip_reputation(&evidence.source_ip), 4750);
    // Category history is now 0 correct of 1 total.
    assert_eq!(engine.get_threat_type_accuracy(ThreatType::Malware), 0);
    // An unseen category keeps the default accuracy.
    assert_eq!(engine.get_threat_type_accuracy(ThreatType::DDoS), 7000);
}

#[test]
fn test_get_metrics() {
    let config = CredibilityConfig::default();
    let mut engine = CredibilityEngine::new(config);

    let empty = engine.get_metrics();
    assert_eq!(empty.total_sources_tracked, 0);
    assert_eq!(empty.total_ips_tracked, 0);
    assert_eq!(empty.total_threat_types_tracked, 0);
    assert_eq!(empty.avg_source_reputation, 0);
    assert_eq!(empty.avg_ip_reputation, 0);

    let evidence = test_evidence();
    engine.update_credibility(&evidence, true).unwrap();
    let metrics = engine.get_metrics();
    assert_eq!(metrics.total_sources_tracked, 1);
    assert_eq!(metrics.total_ips_tracked, 1);
    assert_eq!(metrics.total_threat_types_tracked, 1);
    // One accurate step from the 0.7 seed: 0.73.
    assert_eq!(metrics.avg_source_reputation, 7300);
    // One accurate step from the 0.5 seed with weight 0.05: 0.525.
    assert_eq!(metrics.avg_ip_reputation, 5250);
}

// Category accuracy is the exact ratio of correct to total reports.
#[test]
fn test_threat_type_accuracy_ratio() {
    let config = CredibilityConfig::default();
    let mut engine = CredibilityEngine::new(config);
    let evidence = test_evidence();

    engine.update_credibility(&evidence, true).unwrap();
    engine.update_credibility(&evidence, true).unwrap();
    engine.update_credibility(&evidence, false).unwrap();
    // 2 of 3 correct: 6666 in fixed point.
    assert_eq!(engine.get_threat_type_accuracy(ThreatType::Malware), 6666);
}
