//! Regional compliance rules: which regime applies, whether a kind of data
//! may be processed under it, IP anonymization to a subnet granularity,
//! and configuration validation.

use vstd::prelude::*;
use vstd::string::*;

use crate::error::AgentError;
use crate::strings::{
    seq_contains_sub, split_on, split_on_char, str_contains_sub, str_eq, to_lowercase_string,
    lower_of,
};
use crate::ThreatEvidence;

verus! {

/// The compliance engine: the active region, regime and privacy settings.
pub struct ComplianceEngine {
    pub region: String,
    pub compliance_mode: String,
    pub data_retention_days: u32,
    pub privacy_level: u8,
    pub gdpr_compliant: bool,
    pub ccpa_compliant: bool,
    pub china_compliant: bool,
}

/// The data types that count as personal under GDPR and CCPA.
pub open spec fn is_personal_data_type(dt: Seq<char>) -> bool {
    dt == "ip_address"@ || dt == "user_data"@ || dt == "behavior_data"@
}

/// The data types China compliance allows to stay in processing.
pub open spec fn is_domestic_data_type(dt: Seq<char>) -> bool {
    dt == "network_flow"@ || dt == "threat_evidence"@
}

/// The data types the global default allows.
pub open spec fn is_global_data_type(dt: Seq<char>) -> bool {
    dt == "network_flow"@ || dt == "threat_evidence"@ || dt == "anonymized_data"@
}

/// What `is_processing_compliant` decides, given the engine's flags and
/// mode.
pub open spec fn processing_compliant_spec(e: ComplianceEngine, dt: Seq<char>) -> bool {
    if e.compliance_mode@ == "gdpr"@ {
        !e.gdpr_compliant || is_personal_data_type(dt)
    } else if e.compliance_mode@ == "ccpa"@ {
        !e.ccpa_compliant || is_personal_data_type(dt)
    } else if e.compliance_mode@ == "china"@ {
        !e.china_compliant || is_domestic_data_type(dt)
    } else {
        is_global_data_type(dt)
    }
}

impl ComplianceEngine {
    /// A fresh engine for a region and compliance mode: the gdpr, ccpa and
    /// china flags follow the mode, with GDPR and CCPA both assumed by
    /// default, and the default retention of thirty days.
    pub fn new(region: String, compliance_mode: String, privacy_level: u8) -> (r: Self)
        ensures
            r.region == region,
            r.compliance_mode == compliance_mode,
            r.data_retention_days == 30,
            r.privacy_level == privacy_level,
            r.gdpr_compliant == (compliance_mode@ == "gdpr"@ || (compliance_mode@ != "ccpa"@
                && compliance_mode@ != "china"@)),
            r.ccpa_compliant == (compliance_mode@ == "ccpa"@ || (compliance_mode@ != "gdpr"@
                && compliance_mode@ != "china"@)),
            r.china_compliant == (compliance_mode@ == "china"@),
    {
        proof {
            reveal_strlit("gdpr");
            reveal_strlit("ccpa");
            reveal_strlit("china");
            assert("gdpr"@ != "ccpa"@) by {
                assert("gdpr"@[0] == 'g');
                assert("ccpa"@[0] == 'c');
            }
            assert("gdpr"@ != "china"@) by {
                assert("gdpr"@[0] == 'g');
                assert("china"@[0] == 'c');
            }
            assert("ccpa"@ != "china"@) by {
                assert("ccpa"@.len() == 4);
                assert("china"@.len() == 5);
            }
        }
        let gdpr = str_eq(compliance_mode.as_str(), "gdpr");
        let ccpa = str_eq(compliance_mode.as_str(), "ccpa");
        let china = str_eq(compliance_mode.as_str(), "china");
        let (gdpr_compliant, ccpa_compliant, china_compliant) = if gdpr {
            (true, false, false)
        } else if ccpa {
            (false, true, false)
        } else if china {
            (false, false, true)
        } else {
            (true, true, false)
        };
        ComplianceEngine {
            region,
            compliance_mode,
            data_retention_days: 30,
            privacy_level,
            gdpr_compliant,
            ccpa_compliant,
            china_compliant,
        }
    }

    /// Initialize the compliance flags and retention period from the
    /// region: China gets local rules and a 180-day retention, Europe GDPR,
    /// the United States CCPA, and everywhere else the global default of
    /// GDPR plus CCPA; matching is case-insensitive.
    pub fn init_compliance(&mut self) -> (r: Result<(), AgentError>)
        ensures
            r is Ok,
            final(self).region == old(self).region,
            final(self).compliance_mode == old(self).compliance_mode,
            final(self).privacy_level == old(self).privacy_level,
            ({
                let lr = lower_of(old(self).region@);
                let cn = lr == "cn"@ || lr == "china"@;
                let eu = lr == "eu"@ || lr == "europe"@;
                let us = lr == "us"@ || lr == "usa"@;
                &&& final(self).china_compliant == cn
                &&& final(self).gdpr_compliant == (!cn && (eu || !us))
                &&& final(self).ccpa_compliant == (!cn && !eu)
                &&& final(self).data_retention_days == (if cn {
                    180u32
                } else {
                    30u32
                })
            }),
    {
        let lower = to_lowercase_string(self.region.as_str());
        if str_eq(lower.as_str(), "cn") || str_eq(lower.as_str(), "china") {
            self.china_compliant = true;
            self.gdpr_compliant = false;
            self.ccpa_compliant = false;
            self.data_retention_days = 180;
        } else if str_eq(lower.as_str(), "eu") || str_eq(lower.as_str(), "europe") {
            self.gdpr_compliant = true;
            self.ccpa_compliant = false;
            self.china_compliant = false;
            self.data_retention_days = 30;
        } else if str_eq(lower.as_str(), "us") || str_eq(lower.as_str(), "usa") {
            self.ccpa_compliant = true;
            self.gdpr_compliant = false;
            self.china_compliant = false;
            self.data_retention_days = 30;
        } else {
            self.gdpr_compliant = true;
            self.ccpa_compliant = true;
            self.china_compliant = false;
            self.data_retention_days = 30;
        }
        Ok(())
    }

    /// Whether processing this kind of data is allowed under the active
    /// compliance mode.
    pub fn is_processing_compliant(&self, data_type: &str, data: &str) -> (r: bool)
        ensures
            r == processing_compliant_spec(*self, data_type@),
    {
        if str_eq(self.compliance_mode.as_str(), "gdpr") {
            self.check_gdpr_compliance(data_type, data)
        } else if str_eq(self.compliance_mode.as_str(), "ccpa") {
            self.check_ccpa_compliance(data_type, data)
        } else if str_eq(self.compliance_mode.as_str(), "china") {
            self.check_china_compliance(data_type, data)
        } else {
            self.check_global_compliance(data_type, data)
        }
    }

    /// GDPR: personal data types are the ones under processing rules.
    fn check_gdpr_compliance(&self, data_type: &str, _data: &str) -> (r: bool)
        ensures
            r == (!self.gdpr_compliant || is_personal_data_type(data_type@)),
    {
        if !self.gdpr_compliant {
            return true;
        }
        str_eq(data_type, "ip_address") || str_eq(data_type, "user_data") || str_eq(
            data_type,
            "behavior_data",
        )
    }

    /// CCPA: personal information types are the ones under processing
    /// rules.
    fn check_ccpa_compliance(&self, data_type: &str, _data: &str) -> (r: bool)
        ensures
            r == (!self.ccpa_compliant || is_personal_data_type(data_type@)),
    {
        if !self.ccpa_compliant {
            return true;
        }
        str_eq(data_type, "ip_address") || str_eq(data_type, "user_data") || str_eq(
            data_type,
            "behavior_data",
        )
    }

    /// China: only data that stays within the country is processed.
    fn check_china_compliance(&self, data_type: &str, _data: &str) -> (r: bool)
        ensures
            r == (!self.china_compliant || is_domestic_data_type(data_type@)),
    {
        if !self.china_compliant {
            return true;
        }
        str_eq(data_type, "network_flow") || str_eq(data_type, "threat_evidence")
    }

    /// Global default: flow data, threat evidence and anonymized data.
    fn check_global_compliance(&self, data_type: &str, _data: &str) -> (r: bool)
        ensures
            r == is_global_data_type(data_type@),
    {
        str_eq(data_type, "network_flow") || str_eq(data_type, "threat_evidence") || str_eq(
            data_type,
            "anonymized_data",
        )
    }
}

/// The subnet granularity kept for a privacy level: level 1 anonymizes to
/// /24, level 3 keeps the full address, every other level anonymizes to
/// /16.
pub open spec fn privacy_subnet_bits(privacy_level: u8) -> u8 {
    if privacy_level == 1 {
        24u8
    } else if privacy_level == 2 {
        16u8
    } else if privacy_level == 3 {
        32u8
    } else {
        16u8
    }
}

/// An IPv4 address anonymized to a subnet granularity: the kept leading
/// octets followed by zero octets. Anything that is not a dotted quad
/// becomes the zero address; 32 or more subnet bits keep the address
/// whole.
pub open spec fn anonymize_ip_spec(ip: Seq<char>, subnet_bits: u8) -> Seq<char> {
    if subnet_bits >= 32 {
        ip
    } else {
        let parts = split_on(ip, '.');
        if parts.len() == 4 {
            if subnet_bits <= 8 {
                parts[0] + ".0.0.0"@
            } else if subnet_bits <= 16 {
                parts[0] + "."@ + parts[1] + ".0.0"@
            } else if subnet_bits <= 24 {
                parts[0] + "."@ + parts[1] + "."@ + parts[2] + ".0"@
            } else {
                ip
            }
        } else {
            "0.0.0.0"@
        }
    }
}

impl ComplianceEngine {
    /// Anonymize an IPv4 address to the given subnet granularity.
    pub fn anonymize_ip(&self, ip: &str, subnet_bits: u8) -> (r: String)
        ensures
            r@ == anonymize_ip_spec(ip@, subnet_bits),
    {
        if subnet_bits >= 32 {
            return ip.to_owned();
        }
        let octets = split_on_char(ip, '.');
        proof {
            assert(octets@.map_values(|x: String| x@).len() == octets@.len());
        }
        if octets.len() == 4 {
            proof {
                let parts = split_on(ip@, '.');
                assert(parts[0] == octets@[0]@);
                assert(parts[1] == octets@[1]@);
                assert(parts[2] == octets@[2]@);
            }
            if subnet_bits <= 8 {
                let mut r = octets[0].clone();
                r.append(".0.0.0");
                assert(r@ =~= anonymize_ip_spec(ip@, subnet_bits));
                r
            } else if subnet_bits <= 16 {
                let mut r = octets[0].clone();
                r.append(".");
                r.append(octets[1].as_str());
                r.append(".0.0");
                assert(r@ =~= anonymize_ip_spec(ip@, subnet_bits));
                r
            } else if subnet_bits <= 24 {
                let mut r = octets[0].clone();
                r.append(".");
                r.append(octets[1].as_str());
                r.append(".");
                r.append(octets[2].as_str());
                r.append(".0");
                assert(r@ =~= anonymize_ip_spec(ip@, subnet_bits));
                r
            } else {
                ip.to_owned()
            }
        } else {
            let r: String = "0.0.0.0".to_owned();
            r
        }
    }

    /// Apply the privacy settings to an evidence record: both IP fields
    /// are anonymized to the granularity the privacy level allows; nothing
    /// else changes.
    pub fn process_evidence(&self, evidence: ThreatEvidence) -> (r: Result<
        ThreatEvidence,
        AgentError,
    >)
        ensures
            r is Ok,
            ({
                let e = r->Ok_0;
                let bits = privacy_subnet_bits(self.privacy_level);
                &&& e.source_ip@ == anonymize_ip_spec(evidence.source_ip@, bits)
                &&& e.target_ip@ == anonymize_ip_spec(evidence.target_ip@, bits)
                &&& e.id == evidence.id
                &&& e.timestamp == evidence.timestamp
                &&& e.threat_type == evidence.threat_type
                &&& e.threat_level == evidence.threat_level
                &&& e.context == evidence.context
                &&& e.evidence_hash == evidence.evidence_hash
                &&& e.geolocation == evidence.geolocation
                &&& e.network_flow == evidence.network_flow
                &&& e.agent_id == evidence.agent_id
                &&& e.reputation == evidence.reputation
                &&& e.compliance_tag == evidence.compliance_tag
                &&& e.region == evidence.region
            }),
    {
        let mut evidence = evidence;
        let bits: u8 = if self.privacy_level == 1 {
            24
        } else if self.privacy_level == 2 {
            16
        } else if self.privacy_level == 3 {
            32
        } else {
            16
        };
        evidence.source_ip = self.anonymize_ip(evidence.source_ip.as_str(), bits);
        evidence.target_ip = self.anonymize_ip(evidence.target_ip.as_str(), bits);
        Ok(evidence)
    }

    /// A report of the compliance posture at time `now`.
    pub fn generate_compliance_report(&self, now: i64) -> (r: ComplianceReport)
        ensures
            r.timestamp == now,
            r.region == self.region,
            r.compliance_mode == self.compliance_mode,
            r.gdpr_compliant == self.gdpr_compliant,
            r.ccpa_compliant == self.ccpa_compliant,
            r.china_compliant == self.china_compliant,
            r.data_retention_days == self.data_retention_days,
            r.privacy_level == self.privacy_level,
            r.checks_passed == 10,
            r.checks_failed == 0,
    {
        ComplianceReport {
            timestamp: now,
            region: self.region.clone(),
            compliance_mode: self.compliance_mode.clone(),
            gdpr_compliant: self.gdpr_compliant,
            ccpa_compliant: self.ccpa_compliant,
            china_compliant: self.china_compliant,
            data_retention_days: self.data_retention_days,
            privacy_level: self.privacy_level,
            checks_passed: 10,
            checks_failed: 0,
        }
    }

    /// Validate a configuration against the active compliance rules: under
    /// China compliance no bootstrap node may point abroad, and under GDPR
    /// the privacy level must be at least one.
    pub fn validate_config_compliance(&self, bootstrap_nodes: &Vec<String>, privacy_level: u8) -> (r:
        Result<(), AgentError>)
        ensures
            (r is Ok) == (!(self.china_compliant && (exists|i: int|
                0 <= i < bootstrap_nodes@.len() && is_foreign_node(
                    (#[trigger] bootstrap_nodes@[i])@,
                ))) && !(self.gdpr_compliant && privacy_level < 1)),
            r is Err ==> r->Err_0 is ComplianceError,
    {
        if self.china_compliant {
            let mut i: usize = 0;
            while i < bootstrap_nodes.len()
                invariant
                    i <= bootstrap_nodes@.len(),
                    self.china_compliant,
                    forall|j: int|
                        0 <= j < i ==> !is_foreign_node((#[trigger] bootstrap_nodes@[j])@),
                decreases bootstrap_nodes@.len() - i,
            {
                if str_contains_sub(bootstrap_nodes[i].as_str(), "foreign") || str_contains_sub(
                    bootstrap_nodes[i].as_str(),
                    "overseas",
                ) {
                    proof {
                        assert(exists|j: int|
                            0 <= j < bootstrap_nodes@.len() && is_foreign_node(
                                (#[trigger] bootstrap_nodes@[j])@,
                            )) by {
                            assert(0 <= (i as int) && (i as int) < bootstrap_nodes@.len());
                            assert(is_foreign_node(bootstrap_nodes@[i as int]@));
                        }
                    }
                    return Err(
                        AgentError::ComplianceError(
                            "China compliance: Cannot connect to foreign nodes".to_owned(),
                        ),
                    );
                }
                i = i + 1;
            }
        }
        if self.gdpr_compliant && privacy_level < 1 {
            return Err(
                AgentError::ComplianceError(
                    "GDPR compliance: Privacy level must be at least 1".to_owned(),
                ),
            );
        }
        Ok(())
    }
}

/// A bootstrap node address that points abroad.
pub open spec fn is_foreign_node(n: Seq<char>) -> bool {
    seq_contains_sub(n, "foreign"@) || seq_contains_sub(n, "overseas"@)
}

/// A report of the compliance posture.
#[derive(Debug, Clone)]
pub struct ComplianceReport {
    pub timestamp: i64,
    pub region: String,
    pub compliance_mode: String,
    pub gdpr_compliant: bool,
    pub ccpa_compliant: bool,
    pub china_compliant: bool,
    pub data_retention_days: u32,
    pub privacy_level: u8,
    pub checks_passed: u32,
    pub checks_failed: u32,
}

/// A request to delete stored data under a privacy regime.
#[derive(Debug, Clone)]
pub struct DataDeletionRequest {
    pub request_id: String,
    pub user_id: String,
    pub request_type: String,
    pub timestamp: i64,
    pub status: String,
}

} // verus!
