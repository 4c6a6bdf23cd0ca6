//! Evidence correlation, consensus, and credibility for a decentralized
//! threat-intelligence node.
//!
//! The crate models trust values (reputations, confidences, weights and
//! credibility scores) as fixed-point integers: a score of `SCORE_SCALE`
//! stands for 1.0, so every score lives in `0 ..= SCORE_SCALE`.

use vstd::prelude::*;

pub mod analyzer;
pub mod blocklist_exporter;
pub mod compliance;
pub mod config;
pub mod consensus_verification;
pub mod credibility_enhancement;
pub mod crypto;
pub mod error;
pub mod monitor;
pub mod strings;
pub mod threat_intel_upstream;

verus! {

/// Fixed-point scale for reputation, confidence and credibility values:
/// `SCORE_SCALE` score units stand for the real value 1.0.
pub const SCORE_SCALE: u64 = 10000;

/// A score clamped into `0 ..= SCORE_SCALE`.
pub open spec fn clamp_score(x: int) -> int {
    if x > SCORE_SCALE {
        SCORE_SCALE as int
    } else if x < 0 {
        0
    } else {
        x
    }
}

/// Dividing a value of at most `n` times the scale by `n` stays within
/// the scale.
pub proof fn lemma_div_in_scale(x: int, n: int)
    requires
        0 <= x <= n * SCORE_SCALE,
        n >= 1,
    ensures
        0 <= x / n <= SCORE_SCALE,
{
    vstd::arithmetic::div_mod::lemma_div_pos_is_pos(x, n);
    vstd::arithmetic::div_mod::lemma_div_is_ordered(x, n * SCORE_SCALE, n);
    vstd::arithmetic::div_mod::lemma_div_multiples_vanish(SCORE_SCALE as int, n);
}

/// Severity of a reported security event, totally ordered:
/// Info < Warning < Critical < Emergency.
#[derive(Debug, Clone, Copy, PartialEq, Eq, PartialOrd, Ord, Hash, Structural)]
pub enum ThreatLevel {
    Info,
    Warning,
    Critical,
    Emergency,
}

/// Position of a severity level in the total order Info < Warning <
/// Critical < Emergency.
pub open spec fn threat_level_rank(l: ThreatLevel) -> int {
    match l {
        ThreatLevel::Info => 0,
        ThreatLevel::Warning => 1,
        ThreatLevel::Critical => 2,
        ThreatLevel::Emergency => 3,
    }
}

impl ThreatLevel {
    /// Severity comparison under the documented total order.
    pub fn le(&self, other: &ThreatLevel) -> (r: bool)
        ensures
            r == (threat_level_rank(*self) <= threat_level_rank(*other)),
    {
        self.rank_code() <= other.rank_code()
    }

    /// The rank as an executable value.
    pub fn rank_code(&self) -> (r: u8)
        ensures
            r as int == threat_level_rank(*self),
    {
        match self {
            ThreatLevel::Info => 0,
            ThreatLevel::Warning => 1,
            ThreatLevel::Critical => 2,
            ThreatLevel::Emergency => 3,
        }
    }
}

/// The higher of two severity levels under the total order; on a tie the
/// shared value is returned.
pub fn threat_level_max(a: ThreatLevel, b: ThreatLevel) -> (r: ThreatLevel)
    ensures
        r == a || r == b,
        threat_level_rank(r) >= threat_level_rank(a),
        threat_level_rank(r) >= threat_level_rank(b),
{
    if a.rank_code() >= b.rank_code() {
        a
    } else {
        b
    }
}

/// Category of a reported security event.
#[derive(Debug, Clone, Copy, PartialEq, Eq, Hash, Structural)]
pub enum ThreatType {
    DDoS,
    Malware,
    Phishing,
    BruteForce,
    SuspiciousConnection,
    AnomalousBehavior,
    IoCMatch,
    Exploit,
    APT,
    Unknown,
}

/// The lower-case label of a threat category.
pub open spec fn threat_type_label(t: ThreatType) -> Seq<char> {
    match t {
        ThreatType::DDoS => "ddos"@,
        ThreatType::Malware => "malware"@,
        ThreatType::Phishing => "phishing"@,
        ThreatType::BruteForce => "brute_force"@,
        ThreatType::SuspiciousConnection => "suspicious_connection"@,
        ThreatType::AnomalousBehavior => "anomalous_behavior"@,
        ThreatType::IoCMatch => "ioc_match"@,
        ThreatType::Exploit => "exploit"@,
        ThreatType::APT => "apt"@,
        ThreatType::Unknown => "unknown"@,
    }
}

impl ThreatType {
    /// String representation of the threat category.
    pub fn as_ref(&self) -> (r: &'static str)
        ensures
            r@ == threat_type_label(*self),
    {
        match self {
            ThreatType::DDoS => "ddos",
            ThreatType::Malware => "malware",
            ThreatType::Phishing => "phishing",
            ThreatType::BruteForce => "brute_force",
            ThreatType::SuspiciousConnection => "suspicious_connection",
            ThreatType::AnomalousBehavior => "anomalous_behavior",
            ThreatType::IoCMatch => "ioc_match",
            ThreatType::Exploit => "exploit",
            ThreatType::APT => "apt",
            ThreatType::Unknown => "unknown",
        }
    }
}

/// One reported security observation, local or externally ingested.
///
/// `reputation` is a fixed-point score in `0 ..= SCORE_SCALE`.
#[derive(Debug, Clone)]
pub struct ThreatEvidence {
    pub id: String,
    pub timestamp: i64,
    pub source_ip: String,
    pub target_ip: String,
    pub threat_type: ThreatType,
    pub threat_level: ThreatLevel,
    pub context: String,
    pub evidence_hash: String,
    pub geolocation: String,
    pub network_flow: String,
    pub agent_id: String,
    pub reputation: u64,
    pub compliance_tag: String,
    pub region: String,
}

impl ThreatEvidence {
    /// A record is well formed when its reputation score lies in
    /// `0 ..= SCORE_SCALE` and its timestamp is not before the epoch.
    pub open spec fn wf(&self) -> bool {
        &&& self.reputation <= SCORE_SCALE
        &&& self.timestamp >= 0
    }

    /// A field-by-field copy with a known relation to the original.
    pub fn duplicate(&self) -> (r: Self)
        ensures
            r == *self,
    {
        ThreatEvidence {
            id: self.id.clone(),
            timestamp: self.timestamp,
            source_ip: self.source_ip.clone(),
            target_ip: self.target_ip.clone(),
            threat_type: self.threat_type,
            threat_level: self.threat_level,
            context: self.context.clone(),
            evidence_hash: self.evidence_hash.clone(),
            geolocation: self.geolocation.clone(),
            network_flow: self.network_flow.clone(),
            agent_id: self.agent_id.clone(),
            reputation: self.reputation,
            compliance_tag: self.compliance_tag.clone(),
            region: self.region.clone(),
        }
    }
}

/// Relies on `uuid::Uuid::new_v4` and its `Display` form: a freshly drawn
/// random identifier rendered in the hyphenated format, which is 36
/// characters long. Nothing is assumed about which identifier comes back.
#[verifier::external_body]
pub(crate) fn new_uuid_string() -> (r: String)
    ensures
        r@.len() == 36,
{
    uuid::Uuid::new_v4().to_string()
}

/// Severity comparisons respect the total order Info < Warning < Critical
/// < Emergency, and taking the maximum of two levels picks the strictly
/// higher one; on a tie either operand may be returned and both are equal.
pub proof fn lemma_threat_level_order(a: ThreatLevel, b: ThreatLevel)
    ensures
        threat_level_rank(ThreatLevel::Info) < threat_level_rank(ThreatLevel::Warning)
            < threat_level_rank(ThreatLevel::Critical) < threat_level_rank(
            ThreatLevel::Emergency,
        ),
        threat_level_rank(a) == threat_level_rank(b) ==> a == b,
        a != b ==> threat_level_rank(a) != threat_level_rank(b),
{
}

} // verus!
