//! The monitoring modules' decision logic. The monitors here are the
//! simplified stand-ins the agent ships with: they carry their enablement
//! state, and the geographic fence decides from plain inputs whether a
//! connection is worth reporting.

use vstd::prelude::*;
use vstd::string::*;

use crate::error::AgentError;
use crate::strings::{u64_to_string, dec_str_of, str_eq, to_uppercase_string, upper_of};
use crate::{new_uuid_string, ThreatEvidence, ThreatLevel, ThreatType, SCORE_SCALE};

verus! {

/// Network flow monitor.
pub struct NetflowMonitor {
    pub enabled: bool,
}

impl NetflowMonitor {
    pub fn new(enabled: bool) -> (r: Self)
        ensures
            r.enabled == enabled,
    {
        NetflowMonitor { enabled }
    }

    /// Prepare flow monitoring; the simplified monitor has nothing to set
    /// up.
    pub fn start_monitoring(&mut self) -> (r: Result<(), AgentError>)
        ensures
            r is Ok,
            final(self).enabled == old(self).enabled,
    {
        Ok(())
    }

    /// The simplified flow monitor reports no threats.
    pub fn detect_threats(&self, _flow_data: &str) -> (r: Vec<ThreatEvidence>)
        ensures
            r@.len() == 0,
    {
        Vec::new()
    }
}

/// System call monitor.
pub struct SyscallMonitor {
    pub enabled: bool,
}

impl SyscallMonitor {
    pub fn new(enabled: bool) -> (r: Self)
        ensures
            r.enabled == enabled,
    {
        SyscallMonitor { enabled }
    }

    /// Prepare system call monitoring; the simplified monitor has nothing
    /// to set up.
    pub fn start_monitoring(&mut self) -> (r: Result<(), AgentError>)
        ensures
            r is Ok,
            final(self).enabled == old(self).enabled,
    {
        Ok(())
    }

    /// The simplified system call monitor reports no threats.
    pub fn detect_threats(&self, _syscall_data: &str) -> (r: Vec<ThreatEvidence>)
        ensures
            r@.len() == 0,
    {
        Vec::new()
    }
}

/// TLS inspection monitor.
#[derive(Debug, Clone)]
pub struct TlsInspector {
    pub enabled: bool,
}

impl TlsInspector {
    pub fn new(enabled: bool) -> (r: Self)
        ensures
            r.enabled == enabled,
    {
        TlsInspector { enabled }
    }

    /// Prepare TLS inspection; the simplified inspector has nothing to set
    /// up.
    pub fn start_monitoring(&mut self) -> (r: Result<(), AgentError>)
        ensures
            r is Ok,
            final(self).enabled == old(self).enabled,
    {
        Ok(())
    }

    /// The simplified TLS inspector reports nothing.
    pub fn inspect_tls(&self, _sni: &str, _cert_fingerprint: &str) -> (r: Option<ThreatEvidence>)
        ensures
            r is None,
    {
        None
    }
}

/// A region label is on the block list (compared in uppercase).
pub open spec fn region_blocked(blocked: Seq<String>, country: Seq<char>) -> bool {
    exists|i: int| 0 <= i < blocked.len() && (#[trigger] blocked[i])@ == upper_of(country)
}

/// An autonomous system number is on the suspicious list.
pub open spec fn asn_suspicious(asns: Seq<u32>, asn: u32) -> bool {
    exists|i: int| 0 <= i < asns.len() && (#[trigger] asns[i]) == asn
}

/// Geographic fence monitor: flags connections from blocked regions and
/// suspicious autonomous systems.
pub struct GeoFenceMonitor {
    pub enabled: bool,
    pub blocked_regions: Vec<String>,
    pub suspicious_asns: Vec<u32>,
}

impl GeoFenceMonitor {
    /// A fence with the built-in example block lists.
    pub fn new(enabled: bool) -> (r: Self)
        ensures
            r.enabled == enabled,
            r.blocked_regions@.len() == 2,
            r.blocked_regions@[0]@ == "RU"@,
            r.blocked_regions@[1]@ == "KP"@,
            r.suspicious_asns@ == seq![12345u32, 67890u32],
    {
        let mut blocked_regions: Vec<String> = Vec::new();
        blocked_regions.push("RU".to_owned());
        blocked_regions.push("KP".to_owned());
        let mut suspicious_asns: Vec<u32> = Vec::new();
        suspicious_asns.push(12345);
        suspicious_asns.push(67890);
        proof {
            assert(suspicious_asns@ =~= seq![12345u32, 67890u32]);
        }
        GeoFenceMonitor { enabled, blocked_regions, suspicious_asns }
    }

    /// Prepare fence monitoring; nothing to set up.
    pub fn start_monitoring(&mut self) -> (r: Result<(), AgentError>)
        ensures
            r is Ok,
            final(self).enabled == old(self).enabled,
            final(self).blocked_regions@ == old(self).blocked_regions@,
            final(self).suspicious_asns@ == old(self).suspicious_asns@,
    {
        Ok(())
    }

    /// Judge a connection by its origin: a blocked region yields a
    /// warning-level report, a suspicious autonomous system an info-level
    /// one, anything else nothing. The region check comes first.
    pub fn check_ip_location(&self, ip: &str, country: &str, asn: u32, now: i64) -> (r: Option<
        ThreatEvidence,
    >)
        requires
            now >= 0,
        ensures
            (r is Some) == (self.enabled && (region_blocked(self.blocked_regions@, country@)
                || asn_suspicious(self.suspicious_asns@, asn))),
            r is Some ==> ({
                let e = r->Some_0;
                let from_region = region_blocked(self.blocked_regions@, country@);
                &&& e.id@.len() == 36
                &&& e.timestamp == now
                &&& e.source_ip@ == ip@
                &&& e.target_ip@ == "local"@
                &&& e.threat_type == ThreatType::SuspiciousConnection
                &&& e.threat_level == (if from_region {
                    ThreatLevel::Warning
                } else {
                    ThreatLevel::Info
                })
                &&& e.context@ == (if from_region {
                    "Connection from blocked region: "@ + country@
                } else {
                    "Connection from suspicious ASN: "@ + dec_str_of(asn as int)
                })
                &&& e.evidence_hash@ == crate::crypto::digest16_of(
                    vstd::utf8::encode_utf8(ip@),
                )
                &&& e.geolocation@ == country@
                &&& e.network_flow@.len() == 0
                &&& e.agent_id@ == "agent"@
                &&& e.reputation == SCORE_SCALE
                &&& e.compliance_tag@ == "global"@
                &&& e.region@ == country@
                &&& e.wf()
            }),
    {
        if !self.enabled {
            return None;
        }
        proof {
            reveal_strlit("");
        }

        let upper = to_uppercase_string(country);
        let mut blocked = false;
        let mut i: usize = 0;
        while i < self.blocked_regions.len()
            invariant
                i <= self.blocked_regions@.len(),
                upper@ == upper_of(country@),
                blocked == (exists|j: int|
                    0 <= j < i && (#[trigger] self.blocked_regions@[j])@ == upper_of(country@)),
            decreases self.blocked_regions@.len() - i,
        {
            if str_eq(self.blocked_regions[i].as_str(), upper.as_str()) {
                blocked = true;
            }
            i = i + 1;
        }
        assert(blocked == region_blocked(self.blocked_regions@, country@));

        if blocked {
            let mut context: String = "Connection from blocked region: ".to_owned();
            context.append(country);
            return Some(
                ThreatEvidence {
                    id: new_uuid_string(),
                    timestamp: now,
                    source_ip: ip.to_owned(),
                    target_ip: "local".to_owned(),
                    threat_type: ThreatType::SuspiciousConnection,
                    threat_level: ThreatLevel::Warning,
                    context,
                    evidence_hash: crate::crypto::CryptoProvider::blake3_hash(ip.as_bytes()),
                    geolocation: country.to_owned(),
                    network_flow: "".to_owned(),
                    agent_id: "agent".to_owned(),
                    reputation: SCORE_SCALE,
                    compliance_tag: "global".to_owned(),
                    region: country.to_owned(),
                },
            );
        }

        let mut suspicious = false;
        let mut k: usize = 0;
        while k < self.suspicious_asns.len()
            invariant
                k <= self.suspicious_asns@.len(),
                suspicious == (exists|j: int|
                    0 <= j < k && (#[trigger] self.suspicious_asns@[j]) == asn),
            decreases self.suspicious_asns@.len() - k,
        {
            if self.suspicious_asns[k] == asn {
                suspicious = true;
            }
            k = k + 1;
        }
        assert(suspicious == asn_suspicious(self.suspicious_asns@, asn));

        if suspicious {
            let mut context: String = "Connection from suspicious ASN: ".to_owned();
            let rendered = u64_to_string(asn as u64);
            context.append(rendered.as_str());
            return Some(
                ThreatEvidence {
                    id: new_uuid_string(),
                    timestamp: now,
                    source_ip: ip.to_owned(),
                    target_ip: "local".to_owned(),
                    threat_type: ThreatType::SuspiciousConnection,
                    threat_level: ThreatLevel::Info,
                    context,
                    evidence_hash: crate::crypto::CryptoProvider::blake3_hash(ip.as_bytes()),
                    geolocation: country.to_owned(),
                    network_flow: "".to_owned(),
                    agent_id: "agent".to_owned(),
                    reputation: SCORE_SCALE,
                    compliance_tag: "global".to_owned(),
                    region: country.to_owned(),
                },
            );
        }

        None
    }
}

} // verus!
