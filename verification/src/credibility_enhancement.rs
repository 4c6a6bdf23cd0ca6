//! Multi-factor, time-decayed credibility scoring: a composite score per
//! evidence record from source, IP, category-history and consensus
//! signals; severity adjustment from the score; and the long-lived trust
//! statistics revised from verification outcomes.
//!
//! All reputations, weights, thresholds and scores are fixed-point values
//! in `0 ..= SCORE_SCALE` (`SCORE_SCALE` stands for 1.0).

use vstd::prelude::*;
use vstd::string::*;

use crate::error::AgentError;
use crate::strings::{render_score, seq_starts_with, spec_render_score, str_eq, str_starts_with};
use crate::{clamp_score, ThreatEvidence, ThreatLevel, ThreatType, SCORE_SCALE};

verus! {

/// Configuration for credibility calculations.
#[derive(Debug, Clone, Copy, PartialEq, Eq, Structural)]
pub struct CredibilityConfig {
    /// Weight of the reporting agent's reputation.
    pub source_reputation_weight: u64,
    /// Weight of the source IP's reputation.
    pub ip_reputation_weight: u64,
    /// Weight of the per-category historical accuracy.
    pub historical_accuracy_weight: u64,
    /// Weight of the consensus confidence, counted only when one is given.
    pub consensus_weight: u64,
    /// Scores at or above this keep their severity.
    pub high_confidence_threshold: u64,
    /// Scores at or above this (but below high) step severity down once.
    pub medium_confidence_threshold: u64,
    /// Reserved decay factor for future periodic reputation decay.
    pub reputation_decay_factor: u64,
    /// Age in seconds beyond which the recency factor drops.
    pub recency_time_window: u64,
}

impl CredibilityConfig {
    /// Weights, thresholds and the decay factor are scores; the medium
    /// threshold does not exceed the high one; the recency window fits the
    /// signed age arithmetic.
    pub open spec fn wf(&self) -> bool {
        &&& self.source_reputation_weight <= SCORE_SCALE
        &&& self.ip_reputation_weight <= SCORE_SCALE
        &&& self.historical_accuracy_weight <= SCORE_SCALE
        &&& self.consensus_weight <= SCORE_SCALE
        &&& self.high_confidence_threshold <= SCORE_SCALE
        &&& self.medium_confidence_threshold <= self.high_confidence_threshold
        &&& self.reputation_decay_factor <= SCORE_SCALE
        &&& self.recency_time_window <= 0x7fff_ffff_ffff_ffff
    }
}

impl Default for CredibilityConfig {
    /// The documented defaults: weights 0.3 / 0.25 / 0.25 / 0.2,
    /// thresholds 0.8 and 0.6, decay 0.99, and a day-long recency window.
    fn default() -> (r: Self)
        ensures
            r.source_reputation_weight == 3000,
            r.ip_reputation_weight == 2500,
            r.historical_accuracy_weight == 2500,
            r.consensus_weight == 2000,
            r.high_confidence_threshold == 8000,
            r.medium_confidence_threshold == 6000,
            r.reputation_decay_factor == 9900,
            r.recency_time_window == 86400,
            r.wf(),
    {
        CredibilityConfig {
            source_reputation_weight: 3000,
            ip_reputation_weight: 2500,
            historical_accuracy_weight: 2500,
            consensus_weight: 2000,
            high_confidence_threshold: 8000,
            medium_confidence_threshold: 6000,
            reputation_decay_factor: 9900,
            recency_time_window: 86400,
        }
    }
}

/// A reputation entry for this key is stored.
pub open spec fn has_rep(s: Seq<(String, u64)>, key: Seq<char>) -> bool {
    exists|i: int| 0 <= i < s.len() && (#[trigger] s[i]).0@ == key
}

/// The index of the reputation entry for this key.
pub open spec fn rep_index(s: Seq<(String, u64)>, key: Seq<char>) -> int {
    choose|i: int| 0 <= i < s.len() && (#[trigger] s[i]).0@ == key
}

/// The stored reputation for this key.
pub open spec fn rep_at(s: Seq<(String, u64)>, key: Seq<char>) -> int {
    s[rep_index(s, key)].1 as int
}

/// An accuracy entry for this threat category is stored.
pub open spec fn has_acc(s: Seq<(ThreatType, u64, u64)>, t: ThreatType) -> bool {
    exists|i: int| 0 <= i < s.len() && (#[trigger] s[i]).0 == t
}

/// The index of the accuracy entry for this threat category.
pub open spec fn acc_index(s: Seq<(ThreatType, u64, u64)>, t: ThreatType) -> int {
    choose|i: int| 0 <= i < s.len() && (#[trigger] s[i]).0 == t
}

/// The reporting agent's reputation as scoring sees it: upstream feeds get
/// a fixed high trust, unknown agents the documented default.
pub open spec fn source_reputation_of(s: Seq<(String, u64)>, id: Seq<char>) -> int {
    if seq_starts_with(id, "upstream-"@) {
        9000
    } else if has_rep(s, id) {
        rep_at(s, id)
    } else {
        7000
    }
}

/// The source IP's reputation as scoring sees it: unseen IPs get the
/// documented default.
pub open spec fn ip_reputation_of(s: Seq<(String, u64)>, ip: Seq<char>) -> int {
    if has_rep(s, ip) {
        rep_at(s, ip)
    } else {
        5000
    }
}

/// The historical accuracy of a threat category: the ratio of correct to
/// total observations, or the documented default when no history exists.
pub open spec fn accuracy_of(s: Seq<(ThreatType, u64, u64)>, t: ThreatType) -> int {
    if has_acc(s, t) {
        let e = s[acc_index(s, t)];
        if e.2 > 0 {
            e.1 * SCORE_SCALE / e.2 as int
        } else {
            7000
        }
    } else {
        7000
    }
}

/// The recency factor: full weight within the window, half weight for
/// older evidence.
pub open spec fn recency_factor(age: int, window: u64) -> int {
    if age > window {
        5000
    } else {
        10000
    }
}

/// The normalized weighted sum of the component scores; the consensus
/// component and its weight are counted only when a confidence is given.
pub open spec fn weighted_score(
    src: int,
    ip: int,
    hist: int,
    consensus: Option<int>,
    cfg: CredibilityConfig,
) -> int {
    let num = src * cfg.source_reputation_weight + ip * cfg.ip_reputation_weight + hist
        * cfg.historical_accuracy_weight + (match consensus {
        Some(c) => c * cfg.consensus_weight,
        None => 0,
    });
    let den = cfg.source_reputation_weight + cfg.ip_reputation_weight
        + cfg.historical_accuracy_weight + (match consensus {
        Some(_) => cfg.consensus_weight as int,
        None => 0,
    });
    if den > 0 {
        num / den
    } else {
        0
    }
}

/// The composite credibility score: the normalized weighted sum, damped by
/// the recency factor and clamped into `0 ..= SCORE_SCALE`.
pub open spec fn credibility_score_spec(
    src: int,
    ip: int,
    hist: int,
    consensus: Option<int>,
    cfg: CredibilityConfig,
    age: int,
) -> int {
    clamp_score(
        weighted_score(src, ip, hist, consensus, cfg) * recency_factor(
            age,
            cfg.recency_time_window,
        ) / (SCORE_SCALE as int),
    )
}

/// The credibility engine: running trust statistics per reporting agent,
/// per source IP and per threat category, with the scoring configuration.
pub struct CredibilityEngine {
    /// Reputation per reporting agent id.
    pub source_reputation: Vec<(String, u64)>,
    /// Reputation per source IP.
    pub ip_reputation: Vec<(String, u64)>,
    /// Per threat category: correct reports and total reports.
    pub threat_type_accuracy: Vec<(ThreatType, u64, u64)>,
    /// Configuration for credibility calculations.
    pub config: CredibilityConfig,
}

impl CredibilityEngine {
    /// Keys are unique in each table, reputations are scores, correct
    /// counts never exceed totals, and the configuration is well formed.
    pub open spec fn wf(&self) -> bool {
        &&& self.config.wf()
        &&& forall|i: int, j: int|
            #![trigger self.source_reputation@[i], self.source_reputation@[j]]
            0 <= i < j < self.source_reputation@.len() ==> self.source_reputation@[i].0@
                != self.source_reputation@[j].0@
        &&& forall|i: int|
            0 <= i < self.source_reputation@.len() ==> (#[trigger] self.source_reputation@[i]).1
                <= SCORE_SCALE
        &&& forall|i: int, j: int|
            #![trigger self.ip_reputation@[i], self.ip_reputation@[j]]
            0 <= i < j < self.ip_reputation@.len() ==> self.ip_reputation@[i].0@
                != self.ip_reputation@[j].0@
        &&& forall|i: int|
            0 <= i < self.ip_reputation@.len() ==> (#[trigger] self.ip_reputation@[i]).1
                <= SCORE_SCALE
        &&& forall|i: int, j: int|
            #![trigger self.threat_type_accuracy@[i], self.threat_type_accuracy@[j]]
            0 <= i < j < self.threat_type_accuracy@.len() ==> self.threat_type_accuracy@[i].0
                != self.threat_type_accuracy@[j].0
        &&& forall|i: int|
            0 <= i < self.threat_type_accuracy@.len() ==> (
            #[trigger] self.threat_type_accuracy@[i]).1 <= self.threat_type_accuracy@[i].2
    }

    /// A fresh engine with empty trust tables.
    pub fn new(config: CredibilityConfig) -> (r: Self)
        requires
            config.wf(),
        ensures
            r.wf(),
            r.config == config,
            r.source_reputation@.len() == 0,
            r.ip_reputation@.len() == 0,
            r.threat_type_accuracy@.len() == 0,
    {
        CredibilityEngine {
            source_reputation: Vec::new(),
            ip_reputation: Vec::new(),
            threat_type_accuracy: Vec::new(),
            config,
        }
    }

    /// Current configuration.
    pub fn get_config(&self) -> (r: CredibilityConfig)
        ensures
            r == self.config,
    {
        self.config
    }
}

/// With pairwise-distinct keys, a slot holding the key is the slot the
/// lookup functions name.
proof fn lemma_rep_index_unique(s: Seq<(String, u64)>, key: Seq<char>, i: int)
    requires
        forall|p: int, q: int|
            #![trigger s[p], s[q]]
            0 <= p < q < s.len() ==> s[p].0@ != s[q].0@,
        0 <= i < s.len(),
        s[i].0@ == key,
    ensures
        has_rep(s, key),
        rep_index(s, key) == i,
{
    assert(has_rep(s, key));
    let j = rep_index(s, key);
    if i < j {
        assert(s[i].0@ != s[j].0@);
    } else if j < i {
        assert(s[j].0@ != s[i].0@);
    }
}

/// With pairwise-distinct categories, a slot holding the category is the
/// slot the lookup functions name.
proof fn lemma_acc_index_unique(s: Seq<(ThreatType, u64, u64)>, t: ThreatType, i: int)
    requires
        forall|p: int, q: int|
            #![trigger s[p], s[q]]
            0 <= p < q < s.len() ==> s[p].0 != s[q].0,
        0 <= i < s.len(),
        s[i].0 == t,
    ensures
        has_acc(s, t),
        acc_index(s, t) == i,
{
    assert(has_acc(s, t));
    let j = acc_index(s, t);
    if i < j {
        assert(s[i].0 != s[j].0);
    } else if j < i {
        assert(s[j].0 != s[i].0);
    }
}

/// The position of the reputation entry for this key.
fn find_rep_index(s: &Vec<(String, u64)>, key: &str) -> (r: Option<usize>)
    ensures
        match r {
            Some(i) => i < s@.len() && s@[i as int].0@ == key@,
            None => !has_rep(s@, key@),
        },
{
    let mut i: usize = 0;
    while i < s.len()
        invariant
            i <= s@.len(),
            forall|j: int| 0 <= j < i ==> (#[trigger] s@[j]).0@ != key@,
        decreases s@.len() - i,
    {
        if str_eq(s[i].0.as_str(), key) {
            return Some(i);
        }
        i = i + 1;
    }
    None
}

/// The position of the accuracy entry for this threat category.
fn find_acc_index(s: &Vec<(ThreatType, u64, u64)>, t: ThreatType) -> (r: Option<usize>)
    ensures
        match r {
            Some(i) => i < s@.len() && s@[i as int].0 == t,
            None => !has_acc(s@, t),
        },
{
    let mut i: usize = 0;
    while i < s.len()
        invariant
            i <= s@.len(),
            forall|j: int| 0 <= j < i ==> (#[trigger] s@[j]).0 != t,
        decreases s@.len() - i,
    {
        if s[i].0 == t {
            return Some(i);
        }
        i = i + 1;
    }
    None
}

impl CredibilityEngine {
    /// The reporting agent's reputation: fixed high trust for upstream
    /// feeds, the stored value for known agents, the default otherwise.
    pub fn get_source_reputation(&self, source_id: &String) -> (r: u64)
        requires
            self.wf(),
        ensures
            r == source_reputation_of(self.source_reputation@, source_id@),
            r <= SCORE_SCALE,
    {
        if str_starts_with(source_id.as_str(), "upstream-") {
            return 9000;
        }
        match find_rep_index(&self.source_reputation, source_id.as_str()) {
            Some(i) => {
                proof {
                    lemma_rep_index_unique(self.source_reputation@, source_id@, i as int);
                }
                self.source_reputation[i].1
            },
            None => 7000,
        }
    }

    /// The source IP's reputation: the stored value, or the default for
    /// unseen IPs.
    pub fn get_ip_reputation(&self, ip: &String) -> (r: u64)
        requires
            self.wf(),
        ensures
            r == ip_reputation_of(self.ip_reputation@, ip@),
            r <= SCORE_SCALE,
    {
        match find_rep_index(&self.ip_reputation, ip.as_str()) {
            Some(i) => {
                proof {
                    lemma_rep_index_unique(self.ip_reputation@, ip@, i as int);
                }
                self.ip_reputation[i].1
            },
            None => 5000,
        }
    }

    /// The historical accuracy of a threat category: the ratio of correct
    /// to total observations, or the default without history.
    pub fn get_threat_type_accuracy(&self, threat_type: ThreatType) -> (r: u64)
        requires
            self.wf(),
        ensures
            r == accuracy_of(self.threat_type_accuracy@, threat_type),
            r <= SCORE_SCALE,
    {
        match find_acc_index(&self.threat_type_accuracy, threat_type) {
            Some(i) => {
                proof {
                    lemma_acc_index_unique(self.threat_type_accuracy@, threat_type, i as int);
                }
                let entry = &self.threat_type_accuracy[i];
                if entry.2 > 0 {
                    let wide = (entry.1 as u128) * (SCORE_SCALE as u128) / (entry.2 as u128);
                    proof {
                        let c = self.threat_type_accuracy@[i as int].1 as int;
                        let t = self.threat_type_accuracy@[i as int].2 as int;
                        assert(c * SCORE_SCALE <= t * SCORE_SCALE) by (nonlinear_arith)
                            requires
                                0 <= c <= t,
                        ;
                        crate::lemma_div_in_scale(c * SCORE_SCALE, t);
                    }
                    wide as u64
                } else {
                    7000
                }
            },
            None => 7000,
        }
    }

    /// The recency factor for an evidence age in seconds.
    fn calculate_recency_factor(&self, time_diff_seconds: i64) -> (r: u64)
        requires
            self.config.wf(),
        ensures
            r == recency_factor(time_diff_seconds as int, self.config.recency_time_window),
    {
        if time_diff_seconds > self.config.recency_time_window as i64 {
            5000
        } else {
            10000
        }
    }

    /// The composite credibility score of an evidence record at time
    /// `now`: the weighted mean of the agent, IP, category-history and
    /// (when given) consensus signals, damped by the recency factor,
    /// always within `0 ..= SCORE_SCALE`.
    pub fn calculate_credibility_score(
        &self,
        evidence: &ThreatEvidence,
        consensus_confidence: Option<u64>,
        now: i64,
    ) -> (r: Result<u64, AgentError>)
        requires
            self.wf(),
            evidence.wf(),
            match consensus_confidence {
                Some(c) => c <= SCORE_SCALE,
                None => true,
            },
            now >= 0,
        ensures
            r is Ok,
            r->Ok_0 == credibility_score_spec(
                source_reputation_of(self.source_reputation@, evidence.agent_id@),
                ip_reputation_of(self.ip_reputation@, evidence.source_ip@),
                accuracy_of(self.threat_type_accuracy@, evidence.threat_type),
                match consensus_confidence {
                    Some(c) => Some(c as int),
                    None => None,
                },
                self.config,
                now - evidence.timestamp,
            ),
            r->Ok_0 <= SCORE_SCALE,
    {
        let src = self.get_source_reputation(&evidence.agent_id);
        let ip = self.get_ip_reputation(&evidence.source_ip);
        let hist = self.get_threat_type_accuracy(evidence.threat_type);

        proof {
            let w1 = self.config.source_reputation_weight as int;
            let w2 = self.config.ip_reputation_weight as int;
            let w3 = self.config.historical_accuracy_weight as int;
            let w4 = self.config.consensus_weight as int;
            assert(src * w1 <= 10000 * 10000 && ip * w2 <= 10000 * 10000 && hist * w3 <= 10000
                * 10000) by (nonlinear_arith)
                requires
                    0 <= src <= 10000,
                    0 <= ip <= 10000,
                    0 <= hist <= 10000,
                    0 <= w1 <= 10000,
                    0 <= w2 <= 10000,
                    0 <= w3 <= 10000,
            ;
            match consensus_confidence {
                Some(c) => {
                    assert((c as int) * w4 <= 10000 * 10000) by (nonlinear_arith)
                        requires
                            0 <= c as int <= 10000,
                            0 <= w4 <= 10000,
                    ;
                },
                None => {},
            }
        }
        let mut num: u64 = src * self.config.source_reputation_weight + ip
            * self.config.ip_reputation_weight + hist * self.config.historical_accuracy_weight;
        let mut den: u64 = self.config.source_reputation_weight + self.config.ip_reputation_weight
            + self.config.historical_accuracy_weight;
        match consensus_confidence {
            Some(c) => {
                num = num + c * self.config.consensus_weight;
                den = den + self.config.consensus_weight;
            },
            None => {},
        }

        let base: u64 = if den > 0 {
            proof {
                lemma_weighted_num_bound(
                    src as int,
                    ip as int,
                    hist as int,
                    match consensus_confidence {
                        Some(c) => Some(c as int),
                        None => None,
                    },
                    self.config,
                );
                crate::lemma_div_in_scale(num as int, den as int);
            }
            num / den
        } else {
            0
        };

        let factor = self.calculate_recency_factor(now - evidence.timestamp);
        let scaled = base * factor / SCORE_SCALE;

        let score = if scaled > SCORE_SCALE {
            SCORE_SCALE
        } else {
            scaled
        };
        Ok(score)
    }
}

/// One exponential-moving-average step of an agent reputation toward the
/// outcome, with step weight 0.1: toward 1.0 when accurate, toward 0.0
/// when not.
pub open spec fn ema_source(rep: int, accurate: bool) -> int {
    if accurate {
        (9 * rep + 10000) / 10
    } else {
        (9 * rep) / 10
    }
}

/// One exponential-moving-average step of an IP reputation toward the
/// outcome, with step weight 0.05.
pub open spec fn ema_ip(rep: int, accurate: bool) -> int {
    if accurate {
        (19 * rep + 10000) / 20
    } else {
        (19 * rep) / 20
    }
}

/// An EMA step keeps a score within the scale.
pub proof fn lemma_ema_bounds(rep: int)
    requires
        0 <= rep <= SCORE_SCALE,
    ensures
        0 <= ema_source(rep, true) <= SCORE_SCALE,
        0 <= ema_source(rep, false) <= SCORE_SCALE,
        0 <= ema_ip(rep, true) <= SCORE_SCALE,
        0 <= ema_ip(rep, false) <= SCORE_SCALE,
{
    crate::lemma_div_in_scale(9 * rep + 10000, 10);
    crate::lemma_div_in_scale(9 * rep, 10);
    crate::lemma_div_in_scale(19 * rep + 10000, 20);
    crate::lemma_div_in_scale(19 * rep, 20);
}

/// Repeated accurate reports drive an agent's reputation monotonically
/// toward 1.0: one step never lowers the score or pushes it past the
/// scale, and it strictly raises any score more than ten units below the
/// scale.
pub proof fn lemma_reputation_convergence(rep: int)
    requires
        0 <= rep <= SCORE_SCALE,
    ensures
        rep <= ema_source(rep, true) <= SCORE_SCALE,
        SCORE_SCALE - rep >= 10 ==> ema_source(rep, true) > rep,
{
    lemma_ema_bounds(rep);
    crate::consensus_verification::lemma_div_reaches(9 * rep + 10000, 10, rep);
    crate::consensus_verification::lemma_div_reaches(9 * rep + 10000, 10, rep + 1);
}

/// `new` is `old` with the entry for `key` set to `new_val`: updated in
/// place when the key was present, appended otherwise; everything else is
/// unchanged.
pub open spec fn updates_rep(
    old_s: Seq<(String, u64)>,
    new_s: Seq<(String, u64)>,
    key: Seq<char>,
    new_val: int,
) -> bool {
    if has_rep(old_s, key) {
        let i = rep_index(old_s, key);
        &&& new_s.len() == old_s.len()
        &&& forall|j: int| 0 <= j < old_s.len() && j != i ==> new_s[j] == old_s[j]
        &&& new_s[i].0 == old_s[i].0
        &&& new_s[i].1 == new_val
    } else {
        &&& new_s.len() == old_s.len() + 1
        &&& forall|j: int| 0 <= j < old_s.len() ==> new_s[j] == old_s[j]
        &&& new_s[old_s.len() as int].0@ == key
        &&& new_s[old_s.len() as int].1 == new_val
    }
}

/// `new` is `old` with the category's counters stepped: the total
/// incremented and, on an accurate report, the correct count too; a
/// category without history starts its counters at that first report. A
/// counter at the integer limit stays put.
pub open spec fn updates_acc(
    old_s: Seq<(ThreatType, u64, u64)>,
    new_s: Seq<(ThreatType, u64, u64)>,
    t: ThreatType,
    accurate: bool,
) -> bool {
    if has_acc(old_s, t) {
        let i = acc_index(old_s, t);
        let e = old_s[i];
        &&& new_s.len() == old_s.len()
        &&& forall|j: int| 0 <= j < old_s.len() && j != i ==> new_s[j] == old_s[j]
        &&& new_s[i].0 == t
        &&& (if e.2 == u64::MAX {
            new_s[i].1 == e.1 && new_s[i].2 == e.2
        } else {
            new_s[i].2 == e.2 + 1 && new_s[i].1 == e.1 + (if accurate {
                1int
            } else {
                0int
            })
        })
    } else {
        &&& new_s.len() == old_s.len() + 1
        &&& forall|j: int| 0 <= j < old_s.len() ==> new_s[j] == old_s[j]
        &&& new_s[old_s.len() as int].0 == t
        &&& new_s[old_s.len() as int].1 == (if accurate {
            1int
        } else {
            0int
        })
        &&& new_s[old_s.len() as int].2 == 1
    }
}

impl CredibilityEngine {
    /// Revise the long-lived trust statistics from a verification outcome:
    /// the reporting agent's reputation moves by an EMA step with weight
    /// 0.1 (seeded at 0.7 when absent), the source IP's by a step with
    /// weight 0.05 (seeded at 0.5), and the threat category's counters are
    /// incremented (seeded at zero). The three updates are independent.
    pub fn update_credibility(&mut self, evidence: &ThreatEvidence, is_accurate: bool) -> (r:
        Result<(), AgentError>)
        requires
            old(self).wf(),
        ensures
            final(self).wf(),
            final(self).config == old(self).config,
            r is Ok,
            updates_rep(
                old(self).source_reputation@,
                final(self).source_reputation@,
                evidence.agent_id@,
                ema_source(
                    if has_rep(old(self).source_reputation@, evidence.agent_id@) {
                        rep_at(old(self).source_reputation@, evidence.agent_id@)
                    } else {
                        7000
                    },
                    is_accurate,
                ),
            ),
            updates_rep(
                old(self).ip_reputation@,
                final(self).ip_reputation@,
                evidence.source_ip@,
                ema_ip(
                    if has_rep(old(self).ip_reputation@, evidence.source_ip@) {
                        rep_at(old(self).ip_reputation@, evidence.source_ip@)
                    } else {
                        5000
                    },
                    is_accurate,
                ),
            ),
            updates_acc(
                old(self).threat_type_accuracy@,
                final(self).threat_type_accuracy@,
                evidence.threat_type,
                is_accurate,
            ),
    {
        let ghost old_src = self.source_reputation@;
        match find_rep_index(&self.source_reputation, evidence.agent_id.as_str()) {
            Some(i) => {
                proof {
                    lemma_rep_index_unique(old_src, evidence.agent_id@, i as int);
                }
                let cur = self.source_reputation[i].1;
                let updated = if is_accurate {
                    (9 * cur + SCORE_SCALE) / 10
                } else {
                    (9 * cur) / 10
                };
                proof {
                    lemma_ema_bounds(cur as int);
                }
                let mut entry = self.source_reputation.remove(i);
                entry.1 = updated;
                self.source_reputation.insert(i, entry);
                proof {
                    assert(self.source_reputation@ =~= old_src.update(
                        i as int,
                        self.source_reputation@[i as int],
                    ));
                }
            },
            None => {
                let seeded: u64 = 7000;
                let updated = if is_accurate {
                    (9 * seeded + SCORE_SCALE) / 10
                } else {
                    (9 * seeded) / 10
                };
                proof {
                    lemma_ema_bounds(seeded as int);
                }
                self.source_reputation.push((evidence.agent_id.clone(), updated));
            },
        }

        let ghost old_ip = self.ip_reputation@;
        match find_rep_index(&self.ip_reputation, evidence.source_ip.as_str()) {
            Some(i) => {
                proof {
                    lemma_rep_index_unique(old_ip, evidence.source_ip@, i as int);
                }
                let cur = self.ip_reputation[i].1;
                let updated = if is_accurate {
                    (19 * cur + SCORE_SCALE) / 20
                } else {
                    (19 * cur) / 20
                };
                proof {
                    lemma_ema_bounds(cur as int);
                }
                let mut entry = self.ip_reputation.remove(i);
                entry.1 = updated;
                self.ip_reputation.insert(i, entry);
                proof {
                    assert(self.ip_reputation@ =~= old_ip.update(
                        i as int,
                        self.ip_reputation@[i as int],
                    ));
                }
            },
            None => {
                let seeded: u64 = 5000;
                let updated = if is_accurate {
                    (19 * seeded + SCORE_SCALE) / 20
                } else {
                    (19 * seeded) / 20
                };
                proof {
                    lemma_ema_bounds(seeded as int);
                }
                self.ip_reputation.push((evidence.source_ip.clone(), updated));
            },
        }

        let ghost old_acc = self.threat_type_accuracy@;
        match find_acc_index(&self.threat_type_accuracy, evidence.threat_type) {
            Some(i) => {
                proof {
                    lemma_acc_index_unique(old_acc, evidence.threat_type, i as int);
                }
                let mut entry = self.threat_type_accuracy.remove(i);
                if entry.2 < u64::MAX {
                    entry.2 = entry.2 + 1;
                    if is_accurate {
                        entry.1 = entry.1 + 1;
                    }
                }
                self.threat_type_accuracy.insert(i, entry);
                proof {
                    assert(self.threat_type_accuracy@ =~= old_acc.update(
                        i as int,
                        self.threat_type_accuracy@[i as int],
                    ));
                }
            },
            None => {
                let correct: u64 = if is_accurate {
                    1
                } else {
                    0
                };
                self.threat_type_accuracy.push((evidence.threat_type, correct, 1));
            },
        }

        Ok(())
    }
}

/// One severity step down: Emergency to Critical to Warning to Info; Info
/// stays Info.
pub open spec fn step_down(l: ThreatLevel) -> ThreatLevel {
    match l {
        ThreatLevel::Emergency => ThreatLevel::Critical,
        ThreatLevel::Critical => ThreatLevel::Warning,
        ThreatLevel::Warning => ThreatLevel::Info,
        ThreatLevel::Info => ThreatLevel::Info,
    }
}

/// The severity adjustment rule: scores at or above the high threshold
/// keep the severity, scores at or above the medium threshold step it down
/// once, and anything lower is forced to Info.
pub open spec fn adjusted_level(l: ThreatLevel, score: int, cfg: CredibilityConfig) -> ThreatLevel {
    if score >= cfg.high_confidence_threshold {
        l
    } else if score >= cfg.medium_confidence_threshold {
        step_down(l)
    } else {
        ThreatLevel::Info
    }
}

/// A high-confidence score leaves the severity unchanged, and a score
/// below the medium threshold always yields Info, whenever the medium
/// threshold does not exceed the high one.
pub proof fn lemma_enhance_round_trip(l: ThreatLevel, score: int, cfg: CredibilityConfig)
    requires
        cfg.medium_confidence_threshold <= cfg.high_confidence_threshold,
    ensures
        score >= cfg.high_confidence_threshold ==> adjusted_level(l, score, cfg) == l,
        score < cfg.medium_confidence_threshold ==> adjusted_level(l, score, cfg)
            == ThreatLevel::Info,
{
}

/// A credibility score lies in `0 ..= SCORE_SCALE` whatever the weight
/// configuration, the component values and the presence of a consensus
/// input.
pub proof fn lemma_credibility_score_in_range(
    src: int,
    ip: int,
    hist: int,
    consensus: Option<int>,
    cfg: CredibilityConfig,
    age: int,
)
    ensures
        0 <= credibility_score_spec(src, ip, hist, consensus, cfg, age) <= SCORE_SCALE,
{
}

/// `out` is `inp` enhanced against the given trust tables: the severity is
/// adjusted by the composite score, the reputation is overwritten with it,
/// a credibility annotation is appended to the context, and every other
/// field is untouched.
pub open spec fn is_enhanced(
    out: ThreatEvidence,
    inp: ThreatEvidence,
    cc: Option<int>,
    src_s: Seq<(String, u64)>,
    ip_s: Seq<(String, u64)>,
    acc_s: Seq<(ThreatType, u64, u64)>,
    cfg: CredibilityConfig,
    now: i64,
) -> bool {
    let score = credibility_score_spec(
        source_reputation_of(src_s, inp.agent_id@),
        ip_reputation_of(ip_s, inp.source_ip@),
        accuracy_of(acc_s, inp.threat_type),
        cc,
        cfg,
        now - inp.timestamp,
    );
    &&& out.threat_level == adjusted_level(inp.threat_level, score, cfg)
    &&& out.reputation == score
    &&& out.context@ == inp.context@ + " [CREDIBILITY: "@ + spec_render_score(score) + "]"@
    &&& out.id == inp.id
    &&& out.timestamp == inp.timestamp
    &&& out.source_ip == inp.source_ip
    &&& out.target_ip == inp.target_ip
    &&& out.threat_type == inp.threat_type
    &&& out.evidence_hash == inp.evidence_hash
    &&& out.geolocation == inp.geolocation
    &&& out.network_flow == inp.network_flow
    &&& out.agent_id == inp.agent_id
    &&& out.compliance_tag == inp.compliance_tag
    &&& out.region == inp.region
    &&& out.wf()
}

impl CredibilityEngine {
    /// The severity a record keeps after credibility scoring, by the
    /// severity adjustment rule.
    pub fn adjust_threat_level_by_credential(
        &self,
        original_level: ThreatLevel,
        credibility_score: u64,
    ) -> (r: ThreatLevel)
        ensures
            r == adjusted_level(original_level, credibility_score as int, self.config),
    {
        if credibility_score >= self.config.high_confidence_threshold {
            original_level
        } else if credibility_score >= self.config.medium_confidence_threshold {
            match original_level {
                ThreatLevel::Emergency => ThreatLevel::Critical,
                ThreatLevel::Critical => ThreatLevel::Warning,
                ThreatLevel::Warning => ThreatLevel::Info,
                ThreatLevel::Info => ThreatLevel::Info,
            }
        } else {
            ThreatLevel::Info
        }
    }

    /// Enhance an evidence record with credibility information: compute
    /// its composite score, adjust its severity, overwrite its reputation
    /// with the score, and append the credibility annotation to its
    /// context.
    pub fn enhance_threat_evidence(
        &self,
        evidence: ThreatEvidence,
        consensus_confidence: Option<u64>,
        now: i64,
    ) -> (r: Result<ThreatEvidence, AgentError>)
        requires
            self.wf(),
            evidence.wf(),
            match consensus_confidence {
                Some(c) => c <= SCORE_SCALE,
                None => true,
            },
            now >= 0,
        ensures
            r is Ok,
            is_enhanced(
                r->Ok_0,
                evidence,
                match consensus_confidence {
                    Some(c) => Some(c as int),
                    None => None,
                },
                self.source_reputation@,
                self.ip_reputation@,
                self.threat_type_accuracy@,
                self.config,
                now,
            ),
    {
        let ghost orig = evidence;
        let mut enhanced = evidence;
        let credibility_score = match self.calculate_credibility_score(
            &enhanced,
            consensus_confidence,
            now,
        ) {
            Ok(s) => s,
            Err(e) => {
                return Err(e);
            },
        };
        enhanced.threat_level = self.adjust_threat_level_by_credential(
            enhanced.threat_level,
            credibility_score,
        );
        enhanced.reputation = credibility_score;
        enhanced.context.append(" [CREDIBILITY: ");
        let rendered = render_score(credibility_score);
        enhanced.context.append(rendered.as_str());
        enhanced.context.append("]");
        assert(enhanced.context@ =~= orig.context@ + " [CREDIBILITY: "@ + spec_render_score(
            credibility_score as int,
        ) + "]"@);
        Ok(enhanced)
    }

    /// Enhance a batch of evidence records independently, in input order;
    /// the first failure aborts the batch.
    pub fn batch_enhance_threat_evidence(
        &self,
        evidences: Vec<(ThreatEvidence, Option<u64>)>,
        now: i64,
    ) -> (r: Result<Vec<ThreatEvidence>, AgentError>)
        requires
            self.wf(),
            forall|i: int|
                0 <= i < evidences@.len() ==> (#[trigger] evidences@[i]).0.wf() && (
                match evidences@[i].1 {
                    Some(c) => c <= SCORE_SCALE,
                    None => true,
                }),
            now >= 0,
        ensures
            r is Ok,
            r->Ok_0@.len() == evidences@.len(),
            forall|i: int|
                0 <= i < evidences@.len() ==> is_enhanced(
                    #[trigger] r->Ok_0@[i],
                    evidences@[i].0,
                    match evidences@[i].1 {
                        Some(c) => Some(c as int),
                        None => None,
                    },
                    self.source_reputation@,
                    self.ip_reputation@,
                    self.threat_type_accuracy@,
                    self.config,
                    now,
                ),
    {
        let mut enhanced_evidences: Vec<ThreatEvidence> = Vec::new();
        let mut i: usize = 0;
        while i < evidences.len()
            invariant
                i <= evidences@.len(),
                self.wf(),
                now >= 0,
                forall|j: int|
                    0 <= j < evidences@.len() ==> (#[trigger] evidences@[j]).0.wf() && (
                    match evidences@[j].1 {
                        Some(c) => c <= SCORE_SCALE,
                        None => true,
                    }),
                enhanced_evidences@.len() == i,
                forall|j: int|
                    0 <= j < i ==> is_enhanced(
                        #[trigger] enhanced_evidences@[j],
                        evidences@[j].0,
                        match evidences@[j].1 {
                            Some(c) => Some(c as int),
                            None => None,
                        },
                        self.source_reputation@,
                        self.ip_reputation@,
                        self.threat_type_accuracy@,
                        self.config,
                        now,
                    ),
            decreases evidences@.len() - i,
        {
            let item = evidences[i].0.duplicate();
            let cc = evidences[i].1;
            let enhanced = match self.enhance_threat_evidence(item, cc, now) {
                Ok(v) => v,
                Err(e) => {
                    return Err(e);
                },
            };
            enhanced_evidences.push(enhanced);
            i = i + 1;
        }
        Ok(enhanced_evidences)
    }
}

/// A read-only snapshot of the trust tables for monitoring: how many
/// agents, IPs and categories are tracked, and the mean reputations.
#[derive(Debug, Clone, Copy, PartialEq, Eq, Structural)]
pub struct CredibilityMetrics {
    pub total_sources_tracked: usize,
    pub total_ips_tracked: usize,
    pub total_threat_types_tracked: usize,
    /// Mean agent reputation, zero when no agent is tracked.
    pub avg_source_reputation: u64,
    /// Mean IP reputation, zero when no IP is tracked.
    pub avg_ip_reputation: u64,
}

/// The sum of the stored reputation values.
pub open spec fn sum_reps(s: Seq<(String, u64)>) -> int
    decreases s.len(),
{
    if s.len() == 0 {
        0
    } else {
        sum_reps(s.drop_last()) + s.last().1
    }
}

/// The mean of the stored reputation values, zero for an empty table.
pub open spec fn mean_rep(s: Seq<(String, u64)>) -> int {
    if s.len() == 0 {
        0
    } else {
        sum_reps(s) / s.len() as int
    }
}

/// When every stored reputation is a score, their sum is at most the table
/// size times the scale.
proof fn lemma_sum_reps_bounds(s: Seq<(String, u64)>)
    requires
        forall|i: int| 0 <= i < s.len() ==> (#[trigger] s[i]).1 <= SCORE_SCALE,
    ensures
        0 <= sum_reps(s) <= s.len() * SCORE_SCALE,
    decreases s.len(),
{
    if s.len() > 0 {
        assert(forall|i: int|
            0 <= i < s.drop_last().len() ==> (#[trigger] s.drop_last()[i]).1 <= SCORE_SCALE);
        lemma_sum_reps_bounds(s.drop_last());
        assert((s.len() - 1) * SCORE_SCALE + SCORE_SCALE == s.len() * SCORE_SCALE)
            by (nonlinear_arith);
    }
}

impl CredibilityEngine {
    /// The mean of one reputation table.
    fn mean_of(s: &Vec<(String, u64)>) -> (r: u64)
        requires
            forall|i: int| 0 <= i < s@.len() ==> (#[trigger] s@[i]).1 <= SCORE_SCALE,
        ensures
            r == mean_rep(s@),
            r <= SCORE_SCALE,
    {
        if s.len() == 0 {
            return 0;
        }
        let mut total: u128 = 0;
        let mut i: usize = 0;
        while i < s.len()
            invariant
                i <= s@.len(),
                forall|j: int| 0 <= j < s@.len() ==> (#[trigger] s@[j]).1 <= SCORE_SCALE,
                total == sum_reps(s@.subrange(0, i as int)),
                total <= (i as int) * SCORE_SCALE,
            decreases s@.len() - i,
        {
            proof {
                assert(s@.subrange(0, i + 1).drop_last() =~= s@.subrange(0, i as int));
                assert(s@.subrange(0, i + 1).last() == s@[i as int]);
                assert((i as int) * SCORE_SCALE + SCORE_SCALE == (i + 1) * SCORE_SCALE)
                    by (nonlinear_arith);
            }
            total = total + s[i].1 as u128;
            i = i + 1;
        }
        proof {
            assert(s@.subrange(0, s@.len() as int) =~= s@);
            crate::lemma_div_in_scale(sum_reps(s@), s@.len() as int);
        }
        (total / (s.len() as u128)) as u64
    }

    /// A read-only snapshot of the trust tables: entry counts and mean
    /// reputations, with means of empty tables reported as zero.
    pub fn get_metrics(&self) -> (r: CredibilityMetrics)
        requires
            self.wf(),
        ensures
            r.total_sources_tracked == self.source_reputation@.len(),
            r.total_ips_tracked == self.ip_reputation@.len(),
            r.total_threat_types_tracked == self.threat_type_accuracy@.len(),
            r.avg_source_reputation == mean_rep(self.source_reputation@),
            r.avg_ip_reputation == mean_rep(self.ip_reputation@),
            r.avg_source_reputation <= SCORE_SCALE,
            r.avg_ip_reputation <= SCORE_SCALE,
    {
        CredibilityMetrics {
            total_sources_tracked: self.source_reputation.len(),
            total_ips_tracked: self.ip_reputation.len(),
            total_threat_types_tracked: self.threat_type_accuracy.len(),
            avg_source_reputation: Self::mean_of(&self.source_reputation),
            avg_ip_reputation: Self::mean_of(&self.ip_reputation),
        }
    }
}

/// The weighted numerator never exceeds the scale times the weight sum,
/// because every component score is within the scale.
proof fn lemma_weighted_num_bound(
    src: int,
    ip: int,
    hist: int,
    consensus: Option<int>,
    cfg: CredibilityConfig,
)
    requires
        0 <= src <= SCORE_SCALE,
        0 <= ip <= SCORE_SCALE,
        0 <= hist <= SCORE_SCALE,
        match consensus {
            Some(c) => 0 <= c <= SCORE_SCALE,
            None => true,
        },
    ensures
        ({
            let num = src * cfg.source_reputation_weight + ip * cfg.ip_reputation_weight + hist
                * cfg.historical_accuracy_weight + (match consensus {
                Some(c) => c * cfg.consensus_weight,
                None => 0,
            });
            let den = cfg.source_reputation_weight + cfg.ip_reputation_weight
                + cfg.historical_accuracy_weight + (match consensus {
                Some(_) => cfg.consensus_weight as int,
                None => 0,
            });
            0 <= num && num <= den * SCORE_SCALE
        }),
{
    let w1 = cfg.source_reputation_weight as int;
    let w2 = cfg.ip_reputation_weight as int;
    let w3 = cfg.historical_accuracy_weight as int;
    let w4 = cfg.consensus_weight as int;
    assert(0 <= src * w1 <= w1 * SCORE_SCALE) by (nonlinear_arith)
        requires
            0 <= src <= SCORE_SCALE,
            w1 >= 0,
    ;
    assert(0 <= ip * w2 <= w2 * SCORE_SCALE) by (nonlinear_arith)
        requires
            0 <= ip <= SCORE_SCALE,
            w2 >= 0,
    ;
    assert(0 <= hist * w3 <= w3 * SCORE_SCALE) by (nonlinear_arith)
        requires
            0 <= hist <= SCORE_SCALE,
            w3 >= 0,
    ;
    match consensus {
        Some(c) => {
            assert(0 <= c * w4 <= w4 * SCORE_SCALE) by (nonlinear_arith)
                requires
                    0 <= c <= SCORE_SCALE,
                    w4 >= 0,
            ;
            assert((w1 + w2 + w3 + w4) * SCORE_SCALE == w1 * SCORE_SCALE + w2 * SCORE_SCALE + w3
                * SCORE_SCALE + w4 * SCORE_SCALE) by (nonlinear_arith);
        },
        None => {
            assert((w1 + w2 + w3) * SCORE_SCALE == w1 * SCORE_SCALE + w2 * SCORE_SCALE + w3
                * SCORE_SCALE) by (nonlinear_arith);
        },
    }
}


} // verus!

