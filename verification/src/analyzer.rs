//! Detection rule data for the threat analyzers.

use vstd::prelude::*;

use crate::{ThreatLevel, ThreatType};

verus! {

/// One detection rule: a named condition that, when it fires, reports a
/// threat of the given category and severity.
#[derive(Debug, Clone)]
pub struct DetectionRule {
    pub name: String,
    pub condition: String,
    pub threat_type: ThreatType,
    pub threat_level: ThreatLevel,
}

} // verus!
