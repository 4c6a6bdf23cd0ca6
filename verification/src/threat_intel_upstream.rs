//! Upstream threat-intelligence ingestion logic: source configuration,
//! IPv4 indicator validation, extraction of addresses from STIX patterns,
//! feed field mapping, and conversion of plain indicator lines into
//! evidence records. Fetching feeds over the network is left to the
//! surrounding program.

use vstd::prelude::*;
use vstd::string::*;

use crate::strings::{dec_str_of, find_char_from, split_on, split_on_char, str_eq, u64_to_string};
use crate::{ThreatEvidence, ThreatLevel, ThreatType};

verus! {

/// Configuration of one upstream threat-intelligence source.
#[derive(Debug, Clone)]
pub struct UpstreamSourceConfig {
    pub name: String,
    pub url: String,
    pub auth_token: Option<String>,
    pub enabled: bool,
    /// Seconds between fetches.
    pub update_interval: u64,
    /// Feed severity labels mapped to severity levels.
    pub threat_level_mapping: Vec<(String, ThreatLevel)>,
}

/// The built-in CISA AIS source: disabled until credentials are supplied,
/// with the standard severity mapping.
pub fn create_cisa_ais_config() -> (r: UpstreamSourceConfig)
    ensures
        r.name@ == "CISA_AIS"@,
        r.url@ == "https://ais2.cisa.gov/taxii2/"@,
        r.auth_token is None,
        !r.enabled,
        r.update_interval == 300,
        r.threat_level_mapping@.len() == 4,
        r.threat_level_mapping@[0].0@ == "low"@ && r.threat_level_mapping@[0].1
            == ThreatLevel::Info,
        r.threat_level_mapping@[1].0@ == "medium"@ && r.threat_level_mapping@[1].1
            == ThreatLevel::Warning,
        r.threat_level_mapping@[2].0@ == "high"@ && r.threat_level_mapping@[2].1
            == ThreatLevel::Critical,
        r.threat_level_mapping@[3].0@ == "critical"@ && r.threat_level_mapping@[3].1
            == ThreatLevel::Emergency,
{
    let mut threat_level_mapping: Vec<(String, ThreatLevel)> = Vec::new();
    threat_level_mapping.push(("low".to_owned(), ThreatLevel::Info));
    threat_level_mapping.push(("medium".to_owned(), ThreatLevel::Warning));
    threat_level_mapping.push(("high".to_owned(), ThreatLevel::Critical));
    threat_level_mapping.push(("critical".to_owned(), ThreatLevel::Emergency));
    UpstreamSourceConfig {
        name: "CISA_AIS".to_owned(),
        url: "https://ais2.cisa.gov/taxii2/".to_owned(),
        auth_token: None,
        enabled: false,
        update_interval: 300,
        threat_level_mapping,
    }
}

/// A decimal digit character.
pub open spec fn is_ascii_digit(c: char) -> bool {
    48 <= (c as int) && (c as int) <= 57
}

/// The numeric value of a digit character.
pub open spec fn digit_value(c: char) -> int {
    (c as int) - 48
}

/// Every character is a decimal digit.
pub open spec fn all_digits(p: Seq<char>) -> bool {
    forall|k: int| 0 <= k < p.len() ==> is_ascii_digit(#[trigger] p[k])
}

/// The numeric value of a digit string.
pub open spec fn octet_value(p: Seq<char>) -> int
    decreases p.len(),
{
    if p.len() == 0 {
        0
    } else {
        octet_value(p.drop_last()) * 10 + digit_value(p.last())
    }
}

/// A valid IPv4 octet: one to three digits, no leading zero, value at most
/// 255.
pub open spec fn is_valid_octet(p: Seq<char>) -> bool {
    &&& 1 <= p.len() <= 3
    &&& all_digits(p)
    &&& (p.len() > 1 ==> p[0] != '0')
    &&& octet_value(p) <= 255
}

/// A valid dotted-quad IPv4 address.
pub open spec fn is_valid_ipv4(s: Seq<char>) -> bool {
    let parts = split_on(s, '.');
    parts.len() == 4 && (forall|k: int| 0 <= k < 4 ==> is_valid_octet((#[trigger] parts[k])))
}

/// The value of a digit string grows with its length: at most one digit
/// stays below ten, two below a hundred, three below a thousand.
proof fn lemma_octet_value_bound(p: Seq<char>)
    requires
        all_digits(p),
    ensures
        0 <= octet_value(p),
        p.len() <= 1 ==> octet_value(p) < 10,
        p.len() <= 2 ==> octet_value(p) < 100,
        p.len() <= 3 ==> octet_value(p) < 1000,
    decreases p.len(),
{
    if p.len() > 0 {
        assert(all_digits(p.drop_last()));
        lemma_octet_value_bound(p.drop_last());
        assert(is_ascii_digit(p.last()));
    }
}

/// Whether a string is a valid IPv4 octet.
fn valid_octet(p: &str) -> (r: bool)
    ensures
        r == is_valid_octet(p@),
{
    let n = p.unicode_len();
    if n == 0 || n > 3 {
        return false;
    }
    if n > 1 && p.get_char(0) == '0' {
        return false;
    }
    let mut value: u32 = 0;
    let mut k: usize = 0;
    while k < n
        invariant
            k <= n <= 3,
            n == p@.len(),
            all_digits(p@.subrange(0, k as int)),
            value == octet_value(p@.subrange(0, k as int)),
            value < 1000,
        decreases n - k,
    {
        let c = p.get_char(k);
        let code = c as u32;
        if code < 48 || code > 57 {
            assert(!all_digits(p@)) by {
                assert(!is_ascii_digit(p@[k as int]));
            }
            return false;
        }
        proof {
            let prefix = p@.subrange(0, k as int);
            let next = p@.subrange(0, k + 1);
            assert(next.drop_last() =~= prefix);
            assert(next.last() == p@[k as int]);
            lemma_octet_value_bound(prefix);
        }
        value = value * 10 + (code - 48);
        k = k + 1;
    }
    proof {
        assert(p@.subrange(0, n as int) =~= p@);
    }
    value <= 255
}

/// Whether a string is a valid dotted-quad IPv4 address.
pub fn is_valid_ip(ip_str: &str) -> (r: bool)
    ensures
        r == is_valid_ipv4(ip_str@),
{
    let parts = split_on_char(ip_str, '.');
    let ghost spec_parts = split_on(ip_str@, '.');
    proof {
        assert(parts@.map_values(|x: String| x@).len() == parts@.len());
    }
    if parts.len() != 4 {
        return false;
    }
    proof {
        assert(spec_parts[0] == parts@[0]@);
        assert(spec_parts[1] == parts@[1]@);
        assert(spec_parts[2] == parts@[2]@);
        assert(spec_parts[3] == parts@[3]@);
    }
    let ok0 = valid_octet(parts[0].as_str());
    let ok1 = valid_octet(parts[1].as_str());
    let ok2 = valid_octet(parts[2].as_str());
    let ok3 = valid_octet(parts[3].as_str());
    let r = ok0 && ok1 && ok2 && ok3;
    proof {
        if r {
            assert forall|k: int| 0 <= k < 4 implies is_valid_octet(
                #[trigger] spec_parts[k],
            ) by {
                if k == 0 {
                } else if k == 1 {
                } else if k == 2 {
                }
            }
        }
    }
    r
}

/// `i` is the first occurrence of `c` in `s` at or after `from`.
pub open spec fn is_first_at(s: Seq<char>, from: int, c: char, i: int) -> bool {
    from <= i < s.len() && s[i] == c && (forall|j: int| from <= j < i ==> s[j] != c)
}

/// Extract the quoted IPv4 address from a STIX indicator pattern: the text
/// between the first pair of single quotes, when it is a valid address.
pub fn extract_ip_from_pattern(pattern: &str) -> (r: Option<String>)
    ensures
        match r {
            Some(ip) => is_valid_ipv4(ip@) && exists|i: int, j: int|
                #![trigger pattern@.subrange(i + 1, j)]
                is_first_at(pattern@, 0, '\'', i) && is_first_at(pattern@, i + 1, '\'', j) && ip@
                    == pattern@.subrange(i + 1, j),
            None => forall|i: int, j: int|
                #![trigger pattern@.subrange(i + 1, j)]
                is_first_at(pattern@, 0, '\'', i) && is_first_at(pattern@, i + 1, '\'', j)
                    ==> !is_valid_ipv4(pattern@.subrange(i + 1, j)),
        },
{
    let pattern_len = pattern.unicode_len();
    match find_char_from(pattern, 0, '\'') {
        Some(i) => {
            assert(i < pattern_len);
            match find_char_from(pattern, i + 1, '\'') {
                Some(j) => {
                    let ip = pattern.substring_char(i + 1, j);
                    if is_valid_ip(ip) {
                        proof {
                            assert(is_first_at(pattern@, 0, '\'', i as int));
                            assert(is_first_at(pattern@, i + 1, '\'', j as int));
                        }
                        Some(ip.to_owned())
                    } else {
                        proof {
                            lemma_first_at_unique(pattern@, 0, '\'', i as int);
                            lemma_first_at_unique(pattern@, i + 1, '\'', j as int);
                        }
                        None
                    }
                },
                None => {
                    proof {
                        lemma_first_at_unique(pattern@, 0, '\'', i as int);
                    }
                    None
                },
            }
        },
        None => None,
    }
}

/// There is at most one first occurrence: any position that satisfies the
/// first-occurrence property equals this one.
proof fn lemma_first_at_unique(s: Seq<char>, from: int, c: char, i: int)
    requires
        is_first_at(s, from, c, i),
    ensures
        forall|k: int| is_first_at(s, from, c, k) ==> k == i,
{
    assert forall|k: int| is_first_at(s, from, c, k) implies k == i by {
        if k < i {
            assert(s[k] != c);
        } else if i < k {
            assert(s[i] != c);
        }
    }
}

/// The severity that a STIX confidence value maps to.
pub open spec fn level_of_confidence(confidence: int) -> ThreatLevel {
    if confidence < 50 {
        ThreatLevel::Info
    } else if confidence < 75 {
        ThreatLevel::Warning
    } else if confidence < 90 {
        ThreatLevel::Critical
    } else {
        ThreatLevel::Emergency
    }
}

/// Map a STIX confidence value to a severity level.
pub fn threat_level_from_confidence(confidence: u64) -> (r: ThreatLevel)
    ensures
        r == level_of_confidence(confidence as int),
{
    if confidence < 50 {
        ThreatLevel::Info
    } else if confidence < 75 {
        ThreatLevel::Warning
    } else if confidence < 90 {
        ThreatLevel::Critical
    } else {
        ThreatLevel::Emergency
    }
}

/// The category that a generic feed's type label maps to.
pub open spec fn type_of_feed_label(s: Seq<char>) -> ThreatType {
    if s == "malware"@ {
        ThreatType::Malware
    } else if s == "c2"@ {
        ThreatType::SuspiciousConnection
    } else if s == "phishing"@ {
        ThreatType::SuspiciousConnection
    } else if s == "scanner"@ {
        ThreatType::SuspiciousConnection
    } else if s == "exploit"@ {
        ThreatType::Exploit
    } else if s == "apt"@ {
        ThreatType::APT
    } else {
        ThreatType::IoCMatch
    }
}

/// Map a generic feed's type label to a threat category.
pub fn threat_type_from_feed_str(s: &str) -> (r: ThreatType)
    ensures
        r == type_of_feed_label(s@),
{
    if str_eq(s, "malware") {
        ThreatType::Malware
    } else if str_eq(s, "c2") {
        ThreatType::SuspiciousConnection
    } else if str_eq(s, "phishing") {
        ThreatType::SuspiciousConnection
    } else if str_eq(s, "scanner") {
        ThreatType::SuspiciousConnection
    } else if str_eq(s, "exploit") {
        ThreatType::Exploit
    } else if str_eq(s, "apt") {
        ThreatType::APT
    } else {
        ThreatType::IoCMatch
    }
}

/// The severity that a generic feed's level label maps to.
pub open spec fn level_of_feed_label(s: Seq<char>) -> ThreatLevel {
    if s == "info"@ || s == "low"@ {
        ThreatLevel::Info
    } else if s == "warning"@ || s == "medium"@ {
        ThreatLevel::Warning
    } else if s == "critical"@ || s == "high"@ {
        ThreatLevel::Critical
    } else if s == "emergency"@ || s == "severe"@ {
        ThreatLevel::Emergency
    } else {
        ThreatLevel::Warning
    }
}

/// Map a generic feed's level label to a severity level.
pub fn threat_level_from_feed_str(s: &str) -> (r: ThreatLevel)
    ensures
        r == level_of_feed_label(s@),
{
    if str_eq(s, "info") || str_eq(s, "low") {
        ThreatLevel::Info
    } else if str_eq(s, "warning") || str_eq(s, "medium") {
        ThreatLevel::Warning
    } else if str_eq(s, "critical") || str_eq(s, "high") {
        ThreatLevel::Critical
    } else if str_eq(s, "emergency") || str_eq(s, "severe") {
        ThreatLevel::Emergency
    } else {
        ThreatLevel::Warning
    }
}

/// Turn one feed line into an evidence record when it is a plain IPv4
/// indicator: the address becomes the source IP of a warning-level match
/// attributed to the upstream source; anything else yields nothing.
pub fn parse_line_as_indicator(
    line: &str,
    source_name: &str,
    fetch_id: &str,
    now: i64,
) -> (r: Option<ThreatEvidence>)
    requires
        now >= 0,
    ensures
        (r is Some) == is_valid_ipv4(line@),
        r is Some ==> ({
            let e = r->Some_0;
            &&& e.id@ == "upstream-"@ + source_name@ + "-"@ + line@ + "-"@ + dec_str_of(now as int)
            &&& e.timestamp == now
            &&& e.source_ip@ == line@
            &&& e.target_ip@ == "global"@
            &&& e.threat_type == ThreatType::IoCMatch
            &&& e.threat_level == ThreatLevel::Warning
            &&& e.context@ == "Upstream source: "@ + source_name@ + " - Known malicious IP"@
            &&& e.evidence_hash@ == crate::crypto::digest16_of(
                vstd::utf8::encode_utf8(fetch_id@ + "-"@ + line@),
            )
            &&& e.geolocation@ == "unknown"@
            &&& e.network_flow@ == line@
            &&& e.agent_id@ == "upstream-"@ + source_name@
            &&& e.reputation == 8500
            &&& e.compliance_tag@ == "upstream"@
            &&& e.region@ == "global"@
            &&& e.wf()
        }),
{
    if !is_valid_ip(line) {
        return None;
    }

    let mut id: String = "upstream-".to_owned();
    id.append(source_name);
    id.append("-");
    id.append(line);
    id.append("-");
    let ts = u64_to_string(now as u64);
    id.append(ts.as_str());
    assert(id@ =~= "upstream-"@ + source_name@ + "-"@ + line@ + "-"@ + dec_str_of(now as int));

    let mut context: String = "Upstream source: ".to_owned();
    context.append(source_name);
    context.append(" - Known malicious IP");
    assert(context@ =~= "Upstream source: "@ + source_name@ + " - Known malicious IP"@);

    let mut hash_input = fetch_id.to_owned();
    hash_input.append("-");
    hash_input.append(line);
    assert(hash_input@ =~= fetch_id@ + "-"@ + line@);
    let evidence_hash = crate::crypto::CryptoProvider::blake3_hash(hash_input.as_str().as_bytes());

    let mut agent_id: String = "upstream-".to_owned();
    agent_id.append(source_name);

    Some(
        ThreatEvidence {
            id,
            timestamp: now,
            source_ip: line.to_owned(),
            target_ip: "global".to_owned(),
            threat_type: ThreatType::IoCMatch,
            threat_level: ThreatLevel::Warning,
            context,
            evidence_hash,
            geolocation: "unknown".to_owned(),
            network_flow: line.to_owned(),
            agent_id,
            reputation: 8500,
            compliance_tag: "upstream".to_owned(),
            region: "global".to_owned(),
        },
    )
}

} // verus!
