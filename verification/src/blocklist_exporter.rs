//! The blocklist exporter's decision logic: which threats clear the export
//! threshold, deduplication of already-listed IPs, and the format of a
//! blocklist line. Writing the file is left to the surrounding program.

use vstd::prelude::*;
use vstd::string::*;

use crate::strings::str_eq;
use crate::{threat_level_rank, ThreatEvidence, ThreatLevel, ThreatType, threat_type_label};

verus! {

/// The uppercase label of a severity level.
pub open spec fn threat_level_label(l: ThreatLevel) -> Seq<char> {
    match l {
        ThreatLevel::Info => "INFO"@,
        ThreatLevel::Warning => "WARNING"@,
        ThreatLevel::Critical => "CRITICAL"@,
        ThreatLevel::Emergency => "EMERGENCY"@,
    }
}

/// An IP is already on the blocklist.
pub open spec fn cache_has(s: Seq<String>, ip: Seq<char>) -> bool {
    exists|i: int| 0 <= i < s.len() && (#[trigger] s[i])@ == ip
}

/// The blocklist line for one IP: the address followed by a comment naming
/// the severity, category, context and reporting agent.
pub open spec fn blocklist_line(ip: Seq<char>, e: ThreatEvidence) -> Seq<char> {
    ip + " # "@ + threat_level_label(e.threat_level) + " - "@ + threat_type_label(e.threat_type)
        + " - "@ + e.context@ + " - Agent: "@ + e.agent_id@
}

/// Converts threat evidence to blocklist entries: keeps the target file
/// name, the set of IPs already listed, and the export policy.
pub struct BlocklistExporter {
    pub blocklist_file: String,
    pub threat_cache: Vec<String>,
    pub min_threat_level: ThreatLevel,
    pub export_interval: u64,
}

impl BlocklistExporter {
    /// Each IP appears at most once in the cache.
    pub open spec fn wf(&self) -> bool {
        forall|i: int, j: int|
            #![trigger self.threat_cache@[i], self.threat_cache@[j]]
            0 <= i < j < self.threat_cache@.len() ==> self.threat_cache@[i]@
                != self.threat_cache@[j]@
    }

    /// A fresh exporter with an empty cache.
    pub fn new(blocklist_file: String, min_threat_level: ThreatLevel, export_interval: u64) -> (r:
        Self)
        ensures
            r.wf(),
            r.blocklist_file == blocklist_file,
            r.min_threat_level == min_threat_level,
            r.export_interval == export_interval,
            r.threat_cache@.len() == 0,
    {
        BlocklistExporter {
            blocklist_file,
            threat_cache: Vec::new(),
            min_threat_level,
            export_interval,
        }
    }

    /// The uppercase label of a severity level.
    pub fn threat_level_to_string(&self, level: ThreatLevel) -> (r: &'static str)
        ensures
            r@ == threat_level_label(level),
    {
        match level {
            ThreatLevel::Info => "INFO",
            ThreatLevel::Warning => "WARNING",
            ThreatLevel::Critical => "CRITICAL",
            ThreatLevel::Emergency => "EMERGENCY",
        }
    }

    /// The lowercase label of a threat category.
    pub fn threat_type_to_string(&self, threat_type: &ThreatType) -> (r: &'static str)
        ensures
            r@ == threat_type_label(*threat_type),
    {
        threat_type.as_ref()
    }

    /// Decide whether an IP goes on the blocklist: a threat at or above
    /// the minimum level whose IP is not yet listed yields the line to
    /// append, and the IP is remembered; anything else yields nothing.
    pub fn add_to_blocklist(&mut self, ip: &String, evidence: &ThreatEvidence) -> (r: Option<
        String,
    >)
        requires
            old(self).wf(),
        ensures
            final(self).wf(),
            final(self).blocklist_file == old(self).blocklist_file,
            final(self).min_threat_level == old(self).min_threat_level,
            final(self).export_interval == old(self).export_interval,
            (r is Some) == (threat_level_rank(evidence.threat_level) >= threat_level_rank(
                old(self).min_threat_level,
            ) && !cache_has(old(self).threat_cache@, ip@)),
            r is Some ==> r->Some_0@ == blocklist_line(ip@, *evidence)
                && final(self).threat_cache@.len() == old(self).threat_cache@.len() + 1
                && final(self).threat_cache@[old(self).threat_cache@.len() as int]@ == ip@
                && (forall|j: int|
                0 <= j < old(self).threat_cache@.len() ==> final(self).threat_cache@[j] == old(
                    self,
                ).threat_cache@[j]),
            r is None ==> final(self).threat_cache@ == old(self).threat_cache@,
    {
        if evidence.threat_level.rank_code() < self.min_threat_level.rank_code() {
            return None;
        }

        let mut i: usize = 0;
        while i < self.threat_cache.len()
            invariant
                i <= self.threat_cache@.len(),
                *self == *old(self),
                old(self).wf(),
                forall|j: int| 0 <= j < i ==> (#[trigger] self.threat_cache@[j])@ != ip@,
            decreases self.threat_cache@.len() - i,
        {
            if str_eq(self.threat_cache[i].as_str(), ip.as_str()) {
                return None;
            }
            i = i + 1;
        }

        self.threat_cache.push(ip.clone());

        let mut line = ip.clone();
        line.append(" # ");
        line.append(self.threat_level_to_string(evidence.threat_level));
        line.append(" - ");
        line.append(self.threat_type_to_string(&evidence.threat_type));
        line.append(" - ");
        line.append(evidence.context.as_str());
        line.append(" - Agent: ");
        line.append(evidence.agent_id.as_str());
        assert(line@ =~= blocklist_line(ip@, *evidence));
        Some(line)
    }

    /// The exporter's own reputation placeholder.
    pub fn get_reputation(&self) -> (r: u64)
        ensures
            r == 9500,
    {
        9500
    }
}

} // verus!
