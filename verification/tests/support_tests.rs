use orasrs_agent::blocklist_exporter::BlocklistExporter;
use orasrs_agent::compliance::ComplianceEngine;
use orasrs_agent::config::{CryptoConfig, ModuleConfig, P2pConfig, StorageConfig};
use orasrs_agent::crypto::CryptoProvider;
use orasrs_agent::error::AgentError;
use orasrs_agent::monitor::{GeoFenceMonitor, NetflowMonitor, SyscallMonitor, TlsInspector};
use orasrs_agent::threat_intel_upstream::{
    create_cisa_ais_config, extract_ip_from_pattern, is_valid_ip, parse_line_as_indicator,
    threat_level_from_confidence, threat_level_from_feed_str, threat_type_from_feed_str,
};
use orasrs_agent::{ThreatEvidence, ThreatLevel, ThreatType};

const NOW: i64 = 1700000000;

fn sample_evidence() -> ThreatEvidence {
    ThreatEvidence {
        id: "threat_001".to_string(),
        timestamp: NOW,
        source_ip: "192.168.1.100".to_string(),
        target_ip: "10.0.0.5".to_string(),
        threat_type: ThreatType::DDoS,
        threat_level: ThreatLevel::Critical,
        context: "SYN flood attack detected".to_string(),
        evidence_hash: CryptoProvider::blake3_hash(b"flow"),
        geolocation: "unknown".to_string(),
        network_flow: "source_port: 1024-65535, dest_port: 80".to_string(),
        agent_id: "edge_agent_001".to_string(),
        reputation: 9500,
        compliance_tag: "global".to_string(),
        region: "CN".to_string(),
    }
}

#[test]
fn test_threat_level_ord() {
    assert!(ThreatLevel::Info < ThreatLevel::Warning);
    assert!(ThreatLevel::Warning < ThreatLevel::Critical);
    assert!(ThreatLevel::Critical < ThreatLevel::Emergency);
}

#[test]
fn test_threat_type_equality() {
    assert_eq!(ThreatType::Malware, ThreatType::Malware);
    assert_ne!(ThreatType::Malware, ThreatType::DDoS);
}

#[test]
fn test_threat_level_max() {
    assert_eq!(
        orasrs_agent::threat_level_max(ThreatLevel::Warning, ThreatLevel::Critical),
        ThreatLevel::Critical
    );
    assert_eq!(
        orasrs_agent::threat_level_max(ThreatLevel::Emergency, ThreatLevel::Info),
        ThreatLevel::Emergency
    );
    assert_eq!(
        orasrs_agent::threat_level_max(ThreatLevel::Warning, ThreatLevel::Warning),
        ThreatLevel::Warning
    );
}

#[test]
fn test_threat_type_as_ref() {
    assert_eq!(ThreatType::DDoS.as_ref(), "ddos");
    assert_eq!(ThreatType::BruteForce.as_ref(), "brute_force");
    assert_eq!(ThreatType::IoCMatch.as_ref(), "ioc_match");
    assert_eq!(ThreatType::Unknown.as_ref(), "unknown");
}

#[test]
fn test_is_valid_ip() {
    assert!(is_valid_ip("192.168.1.1"));
    assert!(is_valid_ip("10.0.0.1"));
    assert!(!is_valid_ip("999.999.999.999"));
    assert!(!is_valid_ip("not-an-ip"));
}

#[test]
fn test_is_valid_ip_edges() {
    assert!(is_valid_ip("0.0.0.0"));
    assert!(is_valid_ip("255.255.255.255"));
    assert!(!is_valid_ip("256.1.1.1"));
    assert!(!is_valid_ip("01.2.3.4"));
    assert!(!is_valid_ip("1.2.3"));
    assert!(!is_valid_ip("1.2.3.4.5"));
    assert!(!is_valid_ip(""));
    assert!(!is_valid_ip("1.2.3."));
}

#[test]
fn test_extract_ip_from_pattern() {
    let pattern = "[ipv4-addr:value = '192.168.1.100']";
    let result = extract_ip_from_pattern(pattern);
    assert_eq!(result, Some("192.168.1.100".to_string()));
}

#[test]
fn test_extract_ip_from_pattern_invalid() {
    assert_eq!(extract_ip_from_pattern("[file:hashes.'SHA-256' = 'abc123']"), None);
    assert_eq!(extract_ip_from_pattern("no quotes here"), None);
    assert_eq!(extract_ip_from_pattern("one 'quote"), None);
}

#[test]
fn test_blake3_hash() {
    let h1 = CryptoProvider::blake3_hash(b"test-data");
    let h2 = CryptoProvider::blake3_hash(b"test-data");
    let h3 = CryptoProvider::blake3_hash(b"other-data");
    assert_eq!(h1.len(), 16);
    assert_eq!(h1, h2);
    assert_ne!(h1, h3);
    assert_ne!(h1, "test-data");
    assert!(h1.chars().all(|c| c.is_ascii_hexdigit()));
}

#[test]
fn test_sm3_hash_fallback() {
    assert_eq!(
        CryptoProvider::sm3_hash(b"abc"),
        CryptoProvider::blake3_hash(b"abc")
    );
}

#[test]
fn test_sm2_sign_placeholder() {
    let sig = CryptoProvider::sm2_sign(b"payload", b"key").unwrap();
    assert!(sig.starts_with("signature_placeholder_"));
    assert_eq!(sig.len(), "signature_placeholder_".len() + 16);
}

#[test]
fn test_compliance_engine_modes() {
    let gdpr = ComplianceEngine::new("eu".to_string(), "gdpr".to_string(), 2);
    assert!(gdpr.gdpr_compliant && !gdpr.ccpa_compliant && !gdpr.china_compliant);

    let china = ComplianceEngine::new("cn".to_string(), "china".to_string(), 3);
    assert!(!china.gdpr_compliant && !china.ccpa_compliant && china.china_compliant);

    let global = ComplianceEngine::new("anywhere".to_string(), "global".to_string(), 2);
    assert!(global.gdpr_compliant && global.ccpa_compliant && !global.china_compliant);
    assert_eq!(global.data_retention_days, 30);
}

#[test]
fn test_init_compliance() {
    let mut engine = ComplianceEngine::new("CN".to_string(), "global".to_string(), 2);
    engine.init_compliance().unwrap();
    assert!(engine.china_compliant && !engine.gdpr_compliant && !engine.ccpa_compliant);
    assert_eq!(engine.data_retention_days, 180);

    let mut engine = ComplianceEngine::new("Europe".to_string(), "global".to_string(), 2);
    engine.init_compliance().unwrap();
    assert!(engine.gdpr_compliant && !engine.ccpa_compliant && !engine.china_compliant);
    assert_eq!(engine.data_retention_days, 30);

    let mut engine = ComplianceEngine::new("us".to_string(), "global".to_string(), 2);
    engine.init_compliance().unwrap();
    assert!(engine.ccpa_compliant && !engine.gdpr_compliant);

    let mut engine = ComplianceEngine::new("elsewhere".to_string(), "global".to_string(), 2);
    engine.init_compliance().unwrap();
    assert!(engine.gdpr_compliant && engine.ccpa_compliant && !engine.china_compliant);
}

#[test]
fn test_is_processing_compliant() {
    let gdpr = ComplianceEngine::new("eu".to_string(), "gdpr".to_string(), 2);
    assert!(gdpr.is_processing_compliant("ip_address", ""));
    assert!(!gdpr.is_processing_compliant("telemetry", ""));

    let china = ComplianceEngine::new("cn".to_string(), "china".to_string(), 3);
    assert!(china.is_processing_compliant("network_flow", ""));
    assert!(!china.is_processing_compliant("user_data", ""));

    let global = ComplianceEngine::new("x".to_string(), "global".to_string(), 2);
    assert!(global.is_processing_compliant("anonymized_data", ""));
    assert!(!global.is_processing_compliant("user_data", ""));
}

#[test]
fn test_anonymize_ip() {
    let engine = ComplianceEngine::new("x".to_string(), "global".to_string(), 2);
    assert_eq!(engine.anonymize_ip("192.168.1.100", 24), "192.168.1.0");
    assert_eq!(engine.anonymize_ip("192.168.1.100", 16), "192.168.0.0");
    assert_eq!(engine.anonymize_ip("192.168.1.100", 8), "192.0.0.0");
    assert_eq!(engine.anonymize_ip("192.168.1.100", 32), "192.168.1.100");
    assert_eq!(engine.anonymize_ip("192.168.1.100", 30), "192.168.1.100");
    assert_eq!(engine.anonymize_ip("not-an-ip", 16), "0.0.0.0");
    assert_eq!(engine.anonymize_ip("::1", 16), "0.0.0.0");
}

#[test]
fn test_process_evidence_privacy() {
    let engine = ComplianceEngine::new("eu".to_string(), "gdpr".to_string(), 1);
    let processed = engine.process_evidence(sample_evidence()).unwrap();
    assert_eq!(processed.source_ip, "192.168.1.0");
    assert_eq!(processed.target_ip, "10.0.0.0");
    assert_eq!(processed.context, "SYN flood attack detected");

    let full = ComplianceEngine::new("cn".to_string(), "china".to_string(), 3);
    let untouched = full.process_evidence(sample_evidence()).unwrap();
    assert_eq!(untouched.source_ip, "192.168.1.100");
}

#[test]
fn test_validate_config_compliance() {
    let mut china = ComplianceEngine::new("cn".to_string(), "china".to_string(), 3);
    china.init_compliance().unwrap();
    let bad_nodes = vec!["node-overseas.example".to_string()];
    let result = china.validate_config_compliance(&bad_nodes, 3);
    assert!(matches!(result, Err(AgentError::ComplianceError(_))));
    let good_nodes = vec!["node-local.example".to_string()];
    assert!(china.validate_config_compliance(&good_nodes, 3).is_ok());

    let gdpr = ComplianceEngine::new("eu".to_string(), "gdpr".to_string(), 0);
    let result = gdpr.validate_config_compliance(&good_nodes, 0);
    assert!(matches!(result, Err(AgentError::ComplianceError(_))));
}

#[test]
fn test_generate_compliance_report() {
    let engine = ComplianceEngine::new("eu".to_string(), "gdpr".to_string(), 2);
    let report = engine.generate_compliance_report(NOW);
    assert_eq!(report.timestamp, NOW);
    assert_eq!(report.region, "eu");
    assert_eq!(report.checks_passed, 10);
    assert_eq!(report.checks_failed, 0);
}

#[test]
fn test_blocklist_exporter() {
    let mut exporter = BlocklistExporter::new(
        "blocklist.txt".to_string(),
        ThreatLevel::Warning,
        300,
    );
    let evidence = sample_evidence();
    let line = exporter
        .add_to_blocklist(&"192.168.1.100".to_string(), &evidence)
        .unwrap();
    assert_eq!(
        line,
        "192.168.1.100 # CRITICAL - ddos - SYN flood attack detected - Agent: edge_agent_001"
    );

    // The same IP is not listed twice.
    assert!(exporter
        .add_to_blocklist(&"192.168.1.100".to_string(), &evidence)
        .is_none());

    // A threat below the minimum level is not listed.
    let mut weak = sample_evidence();
    weak.threat_level = ThreatLevel::Info;
    assert!(exporter
        .add_to_blocklist(&"198.51.100.9".to_string(), &weak)
        .is_none());

    assert_eq!(exporter.get_reputation(), 9500);
}

#[test]
fn test_blocklist_labels() {
    let exporter = BlocklistExporter::new("f".to_string(), ThreatLevel::Info, 1);
    assert_eq!(exporter.threat_level_to_string(ThreatLevel::Emergency), "EMERGENCY");
    assert_eq!(exporter.threat_type_to_string(&ThreatType::Phishing), "phishing");
}

#[test]
fn test_monitors_report_nothing() {
    let mut netflow = NetflowMonitor::new(true);
    assert!(netflow.start_monitoring().is_ok());
    assert!(netflow.detect_threats("flow").is_empty());

    let mut syscall = SyscallMonitor::new(false);
    assert!(syscall.start_monitoring().is_ok());
    assert!(syscall.detect_threats("call").is_empty());

    let mut tls = TlsInspector::new(true);
    assert!(tls.start_monitoring().is_ok());
    assert!(tls.inspect_tls("example.test", "fp").is_none());
}

#[test]
fn test_geo_fence_blocked_region() {
    let fence = GeoFenceMonitor::new(true);
    let hit = fence.check_ip_location("198.51.100.1", "ru", 64500, NOW).unwrap();
    assert_eq!(hit.threat_level, ThreatLevel::Warning);
    assert_eq!(hit.threat_type, ThreatType::SuspiciousConnection);
    assert_eq!(hit.context, "Connection from blocked region: ru");
    assert_eq!(hit.source_ip, "198.51.100.1");
    assert_eq!(hit.reputation, 10000);
}

#[test]
fn test_geo_fence_suspicious_asn() {
    let fence = GeoFenceMonitor::new(true);
    let hit = fence.check_ip_location("198.51.100.1", "US", 12345, NOW).unwrap();
    assert_eq!(hit.threat_level, ThreatLevel::Info);
    assert_eq!(hit.context, "Connection from suspicious ASN: 12345");

    assert!(fence.check_ip_location("198.51.100.1", "US", 64500, NOW).is_none());
    let disabled = GeoFenceMonitor::new(false);
    assert!(disabled.check_ip_location("198.51.100.1", "RU", 12345, NOW).is_none());
}

#[test]
fn test_cisa_ais_config() {
    let config = create_cisa_ais_config();
    assert_eq!(config.name, "CISA_AIS");
    assert!(!config.enabled);
    assert_eq!(config.update_interval, 300);
    assert_eq!(config.threat_level_mapping.len(), 4);
    assert_eq!(config.threat_level_mapping[0].0, "low");
    assert_eq!(config.threat_level_mapping[0].1, ThreatLevel::Info);
}

#[test]
fn test_feed_mappings() {
    assert_eq!(threat_type_from_feed_str("malware"), ThreatType::Malware);
    assert_eq!(threat_type_from_feed_str("c2"), ThreatType::SuspiciousConnection);
    assert_eq!(threat_type_from_feed_str("exploit"), ThreatType::Exploit);
    assert_eq!(threat_type_from_feed_str("apt"), ThreatType::APT);
    assert_eq!(threat_type_from_feed_str("whatever"), ThreatType::IoCMatch);

    assert_eq!(threat_level_from_feed_str("low"), ThreatLevel::Info);
    assert_eq!(threat_level_from_feed_str("medium"), ThreatLevel::Warning);
    assert_eq!(threat_level_from_feed_str("high"), ThreatLevel::Critical);
    assert_eq!(threat_level_from_feed_str("severe"), ThreatLevel::Emergency);
    assert_eq!(threat_level_from_feed_str("odd"), ThreatLevel::Warning);

    assert_eq!(threat_level_from_confidence(49), ThreatLevel::Info);
    assert_eq!(threat_level_from_confidence(50), ThreatLevel::Warning);
    assert_eq!(threat_level_from_confidence(85), ThreatLevel::Critical);
    assert_eq!(threat_level_from_confidence(95), ThreatLevel::Emergency);
}

#[test]
fn test_parse_line_as_indicator() {
    let parsed = parse_line_as_indicator("203.0.113.7", "FeedX", "fetch-1", NOW).unwrap();
    assert_eq!(parsed.id, format!("upstream-FeedX-203.0.113.7-{}", NOW));
    assert_eq!(parsed.source_ip, "203.0.113.7");
    assert_eq!(parsed.threat_type, ThreatType::IoCMatch);
    assert_eq!(parsed.threat_level, ThreatLevel::Warning);
    assert_eq!(parsed.agent_id, "upstream-FeedX");
    assert_eq!(parsed.reputation, 8500);
    assert_eq!(parsed.context, "Upstream source: FeedX - Known malicious IP");

    assert!(parse_line_as_indicator("# comment", "FeedX", "fetch-1", NOW).is_none());
}

#[test]
fn test_config_defaults() {
    let modules = ModuleConfig::default();
    assert!(modules.netflow && modules.syscall && modules.tls_inspect && modules.geo_fence);

    let p2p = P2pConfig::default();
    assert_eq!(p2p.bootstrap_nodes.len(), 2);
    assert_eq!(p2p.listen_port, 4001);
    assert_eq!(p2p.max_connections, 50);

    let crypto = CryptoConfig::default();
    assert!(!crypto.use_sm_crypto);
    assert_eq!(crypto.encryption_algorithm, "aes256");

    let storage = StorageConfig::default();
    assert_eq!(storage.data_dir, "./data");
    assert_eq!(storage.retention_days, 30);
    assert!(storage.encryption_enabled);
}

#[test]
fn test_agent_error_messages() {
    let e = AgentError::NotFound("request gone".to_string());
    assert_eq!(e.message(), "request gone");
    let e = AgentError::CryptoError("bad key".to_string());
    assert_eq!(e.message(), "bad key");
}
