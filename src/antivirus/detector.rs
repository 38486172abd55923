//! Classification of a file's content against a catalog of threat patterns.
//!
//! Matching is case-insensitive literal substring containment: a pattern's
//! text is never read as a regular expression.
use vstd::prelude::*;
use crate::text::{
    chars_of, contains_seq, contains_chars, join_strings, join_with, lines_of, lower_of,
    split_lines, to_lower, views,
};

verus! {

/// Severity of a threat, totally ordered from `None` to `Critical`.
#[derive(Debug, Clone, Copy, PartialEq, Eq, Structural)]
pub enum ThreatLevel {
    /// No threat detected.
    NoThreat,
    /// Suspicious but not necessarily malicious.
    Low,
    /// Likely malicious.
    Medium,
    /// Definitely malicious.
    High,
    /// Extremely dangerous.
    Critical,
}

impl ThreatLevel {
    /// The position of the level in the order.
    pub open spec fn rank(self) -> nat {
        match self {
            ThreatLevel::NoThreat => 0,
            ThreatLevel::Low => 1,
            ThreatLevel::Medium => 2,
            ThreatLevel::High => 3,
            ThreatLevel::Critical => 4,
        }
    }

    /// The level's display name.
    pub open spec fn label(self) -> Seq<char> {
        match self {
            ThreatLevel::NoThreat => "None"@,
            ThreatLevel::Low => "Low"@,
            ThreatLevel::Medium => "Medium"@,
            ThreatLevel::High => "High"@,
            ThreatLevel::Critical => "Critical"@,
        }
    }

    /// The level's display name.
    pub fn to_string(&self) -> (r: String)
        ensures
            r@ == self.label(),
    {
        match self {
            ThreatLevel::NoThreat => "None".to_string(),
            ThreatLevel::Low => "Low".to_string(),
            ThreatLevel::Medium => "Medium".to_string(),
            ThreatLevel::High => "High".to_string(),
            ThreatLevel::Critical => "Critical".to_string(),
        }
    }
}

/// The higher of two levels.
pub open spec fn max_level(a: ThreatLevel, b: ThreatLevel) -> ThreatLevel {
    if b.rank() > a.rank() {
        b
    } else {
        a
    }
}

/// The position of `level` in the order of threat levels.
pub fn level_rank(level: &ThreatLevel) -> (r: u8)
    ensures
        r as nat == level.rank(),
{
    match level {
        ThreatLevel::NoThreat => 0,
        ThreatLevel::Low => 1,
        ThreatLevel::Medium => 2,
        ThreatLevel::High => 3,
        ThreatLevel::Critical => 4,
    }
}

/// The verdict on one file.
///
/// The confidence is a coarse signal, not a probability: 100 percent for a
/// file without matches, 80 percent for a file with at least one.
#[derive(Debug, Clone)]
pub struct DetectionResult {
    /// Path of the analyzed file.
    pub file_path: String,
    /// Highest level among the matches.
    pub threat_level: ThreatLevel,
    /// Names of the matched patterns, joined by ", ".
    pub threat_type: String,
    /// Descriptions of the matched patterns, joined by "; ".
    pub description: String,
    /// The 1-based numbers of the lines that matched, increasing.
    pub line_numbers: Vec<usize>,
    /// Confidence in percent.
    pub confidence_percent: u8,
}

/// The confidence reported for a file with at least one match.
pub const MATCH_CONFIDENCE_PERCENT: u8 = 80;

/// The confidence reported for a file without matches.
pub const CLEAN_CONFIDENCE_PERCENT: u8 = 100;

impl DetectionResult {
    /// A verdict without threats.
    pub fn clean(file_path: &str) -> (r: Self)
        ensures
            r.file_path@ == file_path@,
            r.threat_level == ThreatLevel::NoThreat,
            r.threat_type@ == "None"@,
            r.description@ == "No threats detected"@,
            r.line_numbers@.len() == 0,
            r.confidence_percent == CLEAN_CONFIDENCE_PERCENT,
    {
        DetectionResult {
            file_path: file_path.to_string(),
            threat_level: ThreatLevel::NoThreat,
            threat_type: "None".to_string(),
            description: "No threats detected".to_string(),
            line_numbers: Vec::new(),
            confidence_percent: CLEAN_CONFIDENCE_PERCENT,
        }
    }

    /// A verdict with the given findings.
    pub fn threat(
        file_path: &str,
        threat_level: ThreatLevel,
        threat_type: &str,
        description: &str,
        line_numbers: Vec<usize>,
        confidence_percent: u8,
    ) -> (r: Self)
        ensures
            r.file_path@ == file_path@,
            r.threat_level == threat_level,
            r.threat_type@ == threat_type@,
            r.description@ == description@,
            r.line_numbers@ == line_numbers@,
            r.confidence_percent == confidence_percent,
    {
        DetectionResult {
            file_path: file_path.to_string(),
            threat_level,
            threat_type: threat_type.to_string(),
            description: description.to_string(),
            line_numbers,
            confidence_percent,
        }
    }
}

/// A threat pattern: a named text marker with a level and a description.
#[derive(Debug, Clone)]
pub struct ThreatPattern {
    /// Pattern name.
    pub name: String,
    /// The text searched for, case-insensitively and literally.
    pub pattern: String,
    /// Threat level of a match.
    pub threat_level: ThreatLevel,
    /// What the pattern detects.
    pub description: String,
}

/// `p` has the given name, text, level and description.
pub open spec fn pattern_is(
    p: ThreatPattern,
    name: Seq<char>,
    text: Seq<char>,
    level: ThreatLevel,
    description: Seq<char>,
) -> bool {
    &&& p.name@ == name
    &&& p.pattern@ == text
    &&& p.threat_level == level
    &&& p.description@ == description
}

/// The pattern `p` matches `line`: the lowercased line contains the
/// lowercased pattern text.
pub open spec fn hits(line: Seq<char>, p: ThreatPattern) -> bool {
    contains_seq(lower_of(line), lower_of(p.pattern@))
}

/// The indices, among the first `n` patterns, of those that match `line`,
/// in catalog order.
pub open spec fn line_matches(line: Seq<char>, ps: Seq<ThreatPattern>, n: int) -> Seq<int>
    decreases n,
{
    if n <= 0 {
        Seq::<int>::empty()
    } else {
        let m = line_matches(line, ps, n - 1);
        if hits(line, ps[n - 1]) {
            m.push(n - 1)
        } else {
            m
        }
    }
}

/// Every match of the catalog in `lines`, as pattern indices, line by line
/// and within a line in catalog order.
pub open spec fn all_matches(lines: Seq<Seq<char>>, ps: Seq<ThreatPattern>) -> Seq<int>
    decreases lines.len(),
{
    if lines.len() == 0 {
        Seq::<int>::empty()
    } else {
        all_matches(lines.drop_last(), ps) + line_matches(lines.last(), ps, ps.len() as int)
    }
}

/// The 1-based numbers of the lines that some pattern matches, increasing.
pub open spec fn flagged_lines(lines: Seq<Seq<char>>, ps: Seq<ThreatPattern>) -> Seq<int>
    decreases lines.len(),
{
    if lines.len() == 0 {
        Seq::<int>::empty()
    } else {
        let f = flagged_lines(lines.drop_last(), ps);
        if line_matches(lines.last(), ps, ps.len() as int).len() > 0 {
            f.push(lines.len() as int)
        } else {
            f
        }
    }
}

/// The highest level among the patterns matched, `None` without matches.
pub open spec fn level_of_matches(ms: Seq<int>, ps: Seq<ThreatPattern>) -> ThreatLevel
    decreases ms.len(),
{
    if ms.len() == 0 {
        ThreatLevel::NoThreat
    } else {
        max_level(level_of_matches(ms.drop_last(), ps), ps[ms.last()].threat_level)
    }
}

/// `ms` holds a match of a pattern named as pattern `j`.
pub open spec fn name_among(ms: Seq<int>, ps: Seq<ThreatPattern>, j: int) -> bool {
    exists|k: int| 0 <= k < ms.len() && (#[trigger] ps[ms[k]]).name@ == ps[j].name@
}

/// The matches whose pattern name had not appeared before: one per name, in
/// the order in which the names were first met.
pub open spec fn first_by_name(ms: Seq<int>, ps: Seq<ThreatPattern>) -> Seq<int>
    decreases ms.len(),
{
    if ms.len() == 0 {
        Seq::<int>::empty()
    } else {
        let d = first_by_name(ms.drop_last(), ps);
        if name_among(d, ps, ms.last()) {
            d
        } else {
            d.push(ms.last())
        }
    }
}

/// The names of the patterns at the indices `ms`.
pub open spec fn names_at(ms: Seq<int>, ps: Seq<ThreatPattern>) -> Seq<Seq<char>> {
    ms.map_values(|j: int| ps[j].name@)
}

/// The descriptions of the patterns at the indices `ms`.
pub open spec fn descriptions_at(ms: Seq<int>, ps: Seq<ThreatPattern>) -> Seq<Seq<char>> {
    ms.map_values(|j: int| ps[j].description@)
}

/// Every pattern of the catalog is above level `None`.
pub open spec fn all_levels_raised(ps: Seq<ThreatPattern>) -> bool {
    forall|k: int| 0 <= k < ps.len() ==> (#[trigger] ps[k]).threat_level != ThreatLevel::NoThreat
}

/// The verdict that the catalog `ps` gives on `content` of the file at `path`.
pub open spec fn is_verdict(
    r: DetectionResult,
    path: Seq<char>,
    content: Seq<char>,
    ps: Seq<ThreatPattern>,
) -> bool {
    let lines = lines_of(content);
    let ms = all_matches(lines, ps);
    &&& r.file_path@ == path
    &&& r.threat_level == level_of_matches(ms, ps)
    &&& r.line_numbers@.map_values(|n: usize| n as int) == flagged_lines(lines, ps)
    &&& ms.len() == 0 ==> {
        &&& r.threat_type@ == "None"@
        &&& r.description@ == "No threats detected"@
        &&& r.confidence_percent == CLEAN_CONFIDENCE_PERCENT
    }
    &&& ms.len() > 0 ==> {
        &&& r.threat_type@ == join_with(names_at(first_by_name(ms, ps), ps), ", "@)
        &&& r.description@ == join_with(descriptions_at(first_by_name(ms, ps), ps), "; "@)
        &&& r.confidence_percent == MATCH_CONFIDENCE_PERCENT
    }
}

/// The default catalog, one literal marker per pattern.
pub open spec fn is_default_catalog(ps: Seq<ThreatPattern>) -> bool {
    let imp = "Suspicious Import"@;
    let imp_d = "Potentially suspicious import statement"@;
    let sys = "File System Access"@;
    let sys_d = "Direct system command execution"@;
    let net = "Network Activity"@;
    let net_d = "Network communication detected"@;
    let ev = "Eval/Exec Usage"@;
    let ev_d = "Dynamic code execution detected"@;
    let del = "File Deletion"@;
    let del_d = "File deletion operations detected"@;
    let reg = "Registry Access"@;
    let reg_d = "Windows registry access detected"@;
    &&& ps.len() == 17
    &&& pattern_is(ps[0], imp, "import os"@, ThreatLevel::Low, imp_d)
    &&& pattern_is(ps[1], imp, "import subprocess"@, ThreatLevel::Low, imp_d)
    &&& pattern_is(ps[2], imp, "import sys"@, ThreatLevel::Low, imp_d)
    &&& pattern_is(ps[3], imp, "import socket"@, ThreatLevel::Low, imp_d)
    &&& pattern_is(ps[4], sys, "os.system"@, ThreatLevel::Medium, sys_d)
    &&& pattern_is(ps[5], sys, "subprocess.call"@, ThreatLevel::Medium, sys_d)
    &&& pattern_is(ps[6], sys, "subprocess.run"@, ThreatLevel::Medium, sys_d)
    &&& pattern_is(ps[7], net, "socket."@, ThreatLevel::Medium, net_d)
    &&& pattern_is(ps[8], net, "urllib"@, ThreatLevel::Medium, net_d)
    &&& pattern_is(ps[9], net, "requests."@, ThreatLevel::Medium, net_d)
    &&& pattern_is(ps[10], net, "http"@, ThreatLevel::Medium, net_d)
    &&& pattern_is(ps[11], ev, "eval("@, ThreatLevel::High, ev_d)
    &&& pattern_is(ps[12], ev, "exec("@, ThreatLevel::High, ev_d)
    &&& pattern_is(ps[13], del, "os.remove"@, ThreatLevel::High, del_d)
    &&& pattern_is(ps[14], del, "os.unlink"@, ThreatLevel::High, del_d)
    &&& pattern_is(ps[15], del, "shutil.rmtree"@, ThreatLevel::High, del_d)
    &&& pattern_is(ps[16], reg, "winreg"@, ThreatLevel::Critical, reg_d)
}

fn make_pattern(name: &str, pattern: &str, threat_level: ThreatLevel, description: &str) -> (r:
    ThreatPattern)
    ensures
        pattern_is(r, name@, pattern@, threat_level, description@),
{
    ThreatPattern {
        name: name.to_string(),
        pattern: pattern.to_string(),
        threat_level,
        description: description.to_string(),
    }
}

/// What a detector offers.
pub trait Detector {
    /// Classifies `content`, the text of the file at `file_path`.
    fn detect(&self, file_path: &str, content: &str) -> DetectionResult;

    /// The detector's name.
    fn name(&self) -> &str;

    /// The detector's version.
    fn version(&self) -> &str {
        "1.0.0"
    }
}

/// Detector driven by a catalog of threat patterns.
pub struct PatternDetector {
    name: String,
    patterns: Vec<ThreatPattern>,
}

impl PatternDetector {
    /// The detector's catalog.
    pub closed spec fn catalog(&self) -> Seq<ThreatPattern> {
        self.patterns@
    }

    /// The detector's name.
    pub closed spec fn spec_name(&self) -> Seq<char> {
        self.name@
    }

    /// A detector named "PatternDetector" holding the default catalog.
    pub fn new() -> (r: Self)
        ensures
            is_default_catalog(r.catalog()),
            r.spec_name() == "PatternDetector"@,
    {
        let mut detector = PatternDetector { name: "PatternDetector".to_string(), patterns: Vec::new() };
        detector.load_default_patterns();
        proof {
            assert(detector.patterns@ =~= Seq::<ThreatPattern>::empty() + detector.patterns@);
        }
        detector
    }

    /// Appends the default catalog to the patterns held.
    fn load_default_patterns(&mut self)
        ensures
            final(self).name == old(self).name,
            final(self).patterns@.len() == old(self).patterns@.len() + 17,
            final(self).patterns@.take(old(self).patterns@.len() as int) == old(self).patterns@,
            is_default_catalog(final(self).patterns@.skip(old(self).patterns@.len() as int)),
    {
        let ghost start = self.patterns@;
        let imp = "Suspicious Import";
        let imp_d = "Potentially suspicious import statement";
        let sys = "File System Access";
        let sys_d = "Direct system command execution";
        let net = "Network Activity";
        let net_d = "Network communication detected";
        let ev = "Eval/Exec Usage";
        let ev_d = "Dynamic code execution detected";
        let del = "File Deletion";
        let del_d = "File deletion operations detected";
        let reg = "Registry Access";
        let reg_d = "Windows registry access detected";
        self.patterns.push(make_pattern(imp, "import os", ThreatLevel::Low, imp_d));
        self.patterns.push(make_pattern(imp, "import subprocess", ThreatLevel::Low, imp_d));
        self.patterns.push(make_pattern(imp, "import sys", ThreatLevel::Low, imp_d));
        self.patterns.push(make_pattern(imp, "import socket", ThreatLevel::Low, imp_d));
        self.patterns.push(make_pattern(sys, "os.system", ThreatLevel::Medium, sys_d));
        self.patterns.push(make_pattern(sys, "subprocess.call", ThreatLevel::Medium, sys_d));
        self.patterns.push(make_pattern(sys, "subprocess.run", ThreatLevel::Medium, sys_d));
        self.patterns.push(make_pattern(net, "socket.", ThreatLevel::Medium, net_d));
        self.patterns.push(make_pattern(net, "urllib", ThreatLevel::Medium, net_d));
        self.patterns.push(make_pattern(net, "requests.", ThreatLevel::Medium, net_d));
        self.patterns.push(make_pattern(net, "http", ThreatLevel::Medium, net_d));
        self.patterns.push(make_pattern(ev, "eval(", ThreatLevel::High, ev_d));
        self.patterns.push(make_pattern(ev, "exec(", ThreatLevel::High, ev_d));
        self.patterns.push(make_pattern(del, "os.remove", ThreatLevel::High, del_d));
        self.patterns.push(make_pattern(del, "os.unlink", ThreatLevel::High, del_d));
        self.patterns.push(make_pattern(del, "shutil.rmtree", ThreatLevel::High, del_d));
        self.patterns.push(make_pattern(reg, "winreg", ThreatLevel::Critical, reg_d));
        proof {
            assert(self.patterns@.take(start.len() as int) =~= start);
            let added = self.patterns@.skip(start.len() as int);
            assert(added.len() == 17);
            assert(is_default_catalog(added));
        }
    }

    /// A detector named "PatternDetector" holding the catalog `patterns`,
    /// for a catalog loaded at run time.
    pub fn with_patterns(patterns: Vec<ThreatPattern>) -> (r: Self)
        ensures
            r.catalog() == patterns@,
            r.spec_name() == "PatternDetector"@,
    {
        PatternDetector { name: "PatternDetector".to_string(), patterns }
    }

    /// Appends a custom pattern to the catalog.
    pub fn add_pattern(&mut self, pattern: ThreatPattern)
        ensures
            final(self).catalog() == old(self).catalog().push(pattern),
            final(self).spec_name() == old(self).spec_name(),
    {
        self.patterns.push(pattern);
    }

    /// The catalog.
    pub fn patterns(&self) -> (r: &[ThreatPattern])
        ensures
            r@ == self.catalog(),
    {
        self.patterns.as_slice()
    }

    /// The detector's name.
    pub fn name(&self) -> (r: &str)
        ensures
            r@ == self.spec_name(),
    {
        self.name.as_str()
    }

    /// The detector's version.
    pub fn version(&self) -> (r: &str)
        ensures
            r@ == "1.0.0"@,
    {
        "1.0.0"
    }

    /// The position of `level` in the order of threat levels.
    pub fn threat_level_priority(&self, level: &ThreatLevel) -> (r: u8)
        ensures
            r as nat == level.rank(),
    {
        level_rank(level)
    }

    /// Classifies `content`, the text of the file at `file_path`.
    pub fn detect(&self, file_path: &str, content: &str) -> (r: DetectionResult)
        ensures
            is_verdict(r, file_path@, content@, self.catalog()),
    {
        detect_in(&self.patterns, file_path, content)
    }
}

impl Detector for PatternDetector {
    fn detect(&self, file_path: &str, content: &str) -> DetectionResult {
        detect_in(&self.patterns, file_path, content)
    }

    fn name(&self) -> &str {
        self.name.as_str()
    }
}

/// Some pattern in `found` bears the name of pattern `j`.
fn name_seen(found: &Vec<usize>, ps: &Vec<ThreatPattern>, j: usize) -> (r: bool)
    requires
        j < ps@.len(),
        forall|k: int| 0 <= k < found@.len() ==> found@[k] < ps@.len(),
    ensures
        r == name_among(found@.map_values(|x: usize| x as int), ps@, j as int),
{
    let ghost fs = found@.map_values(|x: usize| x as int);
    let mut k: usize = 0;
    while k < found.len()
        invariant
            k <= found@.len(),
            j < ps@.len(),
            fs == found@.map_values(|x: usize| x as int),
            forall|m: int| 0 <= m < found@.len() ==> found@[m] < ps@.len(),
            forall|m: int| 0 <= m < k ==> ps@[fs[m]].name@ != ps@[j as int].name@,
        decreases found@.len() - k,
    {
        if ps[found[k]].name == ps[j].name {
            proof {
                assert(ps@[fs[k as int]].name@ == ps@[j as int].name@);
            }
            return true;
        }
        k += 1;
    }
    false
}

/// Classifies `content` with the catalog `patterns`.
fn detect_in(patterns: &Vec<ThreatPattern>, file_path: &str, content: &str) -> (r: DetectionResult)
    ensures
        is_verdict(r, file_path@, content@, patterns@),
{
    let ghost ps = patterns@;
    let ghost lines = lines_of(content@);
    let lines_v = split_lines(content);
    let mut lowered: Vec<Vec<char>> = Vec::new();
    let mut p: usize = 0;
    while p < patterns.len()
        invariant
            p <= ps.len(),
            ps == patterns@,
            lowered@.len() == p,
            forall|k: int| 0 <= k < p ==> #[trigger] lowered@[k]@ == lower_of(ps[k].pattern@),
        decreases ps.len() - p,
    {
        let low = to_lower(patterns[p].pattern.as_str());
        lowered.push(chars_of(low.as_str()));
        p += 1;
    }
    let mut level = ThreatLevel::NoThreat;
    let mut found: Vec<usize> = Vec::new();
    let mut flagged: Vec<usize> = Vec::new();
    let ghost mut all: Seq<int> = Seq::empty();
    let mut i: usize = 0;
    while i < lines_v.len()
        invariant
            i <= lines.len(),
            ps == patterns@,
            lines_v@.len() == lines.len(),
            forall|k: int| 0 <= k < lines_v@.len() ==> #[trigger] lines_v@[k]@ == lines[k],
            lowered@.len() == ps.len(),
            forall|k: int| 0 <= k < ps.len() ==> #[trigger] lowered@[k]@ == lower_of(ps[k].pattern@),
            all == all_matches(lines.take(i as int), ps),
            level == level_of_matches(all, ps),
            found@.map_values(|x: usize| x as int) == first_by_name(all, ps),
            forall|k: int| 0 <= k < found@.len() ==> found@[k] < ps.len(),
            flagged@.map_values(|n: usize| n as int) == flagged_lines(lines.take(i as int), ps),
        decreases lines.len() - i,
    {
        let ghost line = lines[i as int];
        let ghost before = all;
        let low_line = to_lower(lines_v[i].as_str());
        let lc = chars_of(low_line.as_str());
        let mut line_hit = false;
        let mut j: usize = 0;
        while j < patterns.len()
            invariant
                j <= ps.len(),
                ps == patterns@,
                i < lines.len(),
                line == lines[i as int],
                lc@ == lower_of(line),
                lowered@.len() == ps.len(),
                forall|k: int| 0 <= k < ps.len() ==> #[trigger] lowered@[k]@ == lower_of(ps[k].pattern@),
                all == before + line_matches(line, ps, j as int),
                line_hit == (line_matches(line, ps, j as int).len() > 0),
                level == level_of_matches(all, ps),
                found@.map_values(|x: usize| x as int) == first_by_name(all, ps),
                forall|k: int| 0 <= k < found@.len() ==> found@[k] < ps.len(),
            decreases ps.len() - j,
        {
            if contains_chars(&lc, &lowered[j]) {
                proof {
                    assert(hits(line, ps[j as int]));
                }
                let ghost prev = all;
                proof {
                    all = all.push(j as int);
                    assert(all == before + line_matches(line, ps, j as int + 1));
                    assert(all.drop_last() =~= prev);
                }
                if level_rank(&patterns[j].threat_level) > level_rank(&level) {
                    level = patterns[j].threat_level;
                }
                let seen = name_seen(&found, patterns, j);
                if !seen {
                    found.push(j);
                    proof {
                        assert(found@.map_values(|x: usize| x as int) =~= first_by_name(
                            prev,
                            ps,
                        ).push(j as int));
                    }
                }
                line_hit = true;
            } else {
                proof {
                    assert(!hits(line, ps[j as int]));
                    assert(line_matches(line, ps, j as int + 1) == line_matches(line, ps, j as int));
                }
            }
            j += 1;
        }
        proof {
            let t0 = lines.take(i as int);
            let t1 = lines.take(i as int + 1);
            assert(t1.drop_last() =~= t0);
            assert(t1.last() == line);
            assert(all == all_matches(t1, ps));
        }
        if line_hit {
            flagged.push(i + 1);
            proof {
                let t1 = lines.take(i as int + 1);
                assert(flagged@.map_values(|n: usize| n as int) =~= flagged_lines(
                    lines.take(i as int),
                    ps,
                ).push(t1.len() as int));
            }
        }
        i += 1;
    }
    proof {
        assert(lines.take(lines.len() as int) =~= lines);
    }
    if found.len() == 0 {
        proof {
            lemma_first_by_name_empty(all, ps);
        }
        let mut r = DetectionResult::clean(file_path);
        r.line_numbers = flagged;
        r.threat_level = level;
        return r;
    }
    proof {
        lemma_first_by_name_empty(all, ps);
    }
    let mut names: Vec<String> = Vec::new();
    let mut descriptions: Vec<String> = Vec::new();
    let ghost fi = found@.map_values(|x: usize| x as int);
    let mut k: usize = 0;
    while k < found.len()
        invariant
            k <= found@.len(),
            ps == patterns@,
            fi == found@.map_values(|x: usize| x as int),
            forall|m: int| 0 <= m < found@.len() ==> found@[m] < ps.len(),
            views(names@) == names_at(fi.take(k as int), ps),
            views(descriptions@) == descriptions_at(fi.take(k as int), ps),
        decreases found@.len() - k,
    {
        let pat = &patterns[found[k]];
        let ghost n0 = names@;
        let ghost d0 = descriptions@;
        names.push(pat.name.clone());
        descriptions.push(pat.description.clone());
        proof {
            let t0 = fi.take(k as int);
            let t1 = fi.take(k as int + 1);
            assert(t1 =~= t0.push(fi[k as int]));
            assert(names@ == n0.push(ps[fi[k as int]].name));
            assert(descriptions@ == d0.push(ps[fi[k as int]].description));
            assert(views(names@) =~= views(n0).push(ps[fi[k as int]].name@));
            assert(views(descriptions@) =~= views(d0).push(ps[fi[k as int]].description@));
            assert(names_at(t1, ps) =~= names_at(t0, ps).push(ps[fi[k as int]].name@));
            assert(descriptions_at(t1, ps) =~= descriptions_at(t0, ps).push(
                ps[fi[k as int]].description@,
            ));
        }
        k += 1;
    }
    proof {
        assert(fi.take(found@.len() as int) =~= fi);
    }
    let threat_type = join_strings(&names, ", ");
    let description = join_strings(&descriptions, "; ");
    DetectionResult {
        file_path: file_path.to_string(),
        threat_level: level,
        threat_type,
        description,
        line_numbers: flagged,
        confidence_percent: MATCH_CONFIDENCE_PERCENT,
    }
}

/// Keeping the first match of each name leaves something exactly when there
/// was a match.
pub proof fn lemma_first_by_name_empty(ms: Seq<int>, ps: Seq<ThreatPattern>)
    ensures
        (first_by_name(ms, ps).len() == 0) <==> (ms.len() == 0),
    decreases ms.len(),
{
    if ms.len() > 0 {
        lemma_first_by_name_empty(ms.drop_last(), ps);
        let d = first_by_name(ms.drop_last(), ps);
        if name_among(d, ps, ms.last()) {
            assert(d.len() > 0);
        }
    }
}

proof fn lemma_line_matches_in_range(line: Seq<char>, ps: Seq<ThreatPattern>, n: int)
    requires
        0 <= n <= ps.len(),
    ensures
        forall|k: int|
            0 <= k < line_matches(line, ps, n).len() ==> 0 <= #[trigger] line_matches(line, ps, n)[k]
                < ps.len(),
    decreases n,
{
    if n > 0 {
        lemma_line_matches_in_range(line, ps, n - 1);
        let m = line_matches(line, ps, n - 1);
        let m1 = line_matches(line, ps, n);
        assert forall|k: int| 0 <= k < m1.len() implies 0 <= #[trigger] m1[k] < ps.len() by {
            if k < m.len() {
                assert(m1[k] == m[k]);
            }
        }
    }
}

proof fn lemma_all_matches_in_range(lines: Seq<Seq<char>>, ps: Seq<ThreatPattern>)
    ensures
        forall|k: int|
            0 <= k < all_matches(lines, ps).len() ==> 0 <= #[trigger] all_matches(lines, ps)[k]
                < ps.len(),
    decreases lines.len(),
{
    if lines.len() > 0 {
        lemma_all_matches_in_range(lines.drop_last(), ps);
        lemma_line_matches_in_range(lines.last(), ps, ps.len() as int);
        let a = all_matches(lines.drop_last(), ps);
        let b = line_matches(lines.last(), ps, ps.len() as int);
        let c = all_matches(lines, ps);
        assert forall|k: int| 0 <= k < c.len() implies 0 <= #[trigger] c[k] < ps.len() by {
            if k < a.len() {
                assert(c[k] == a[k]);
            } else {
                assert(c[k] == b[k - a.len()]);
            }
        }
    }
}

proof fn lemma_level_raised(ms: Seq<int>, ps: Seq<ThreatPattern>)
    requires
        all_levels_raised(ps),
        forall|k: int| 0 <= k < ms.len() ==> 0 <= #[trigger] ms[k] < ps.len(),
    ensures
        (level_of_matches(ms, ps) == ThreatLevel::NoThreat) <==> (ms.len() == 0),
    decreases ms.len(),
{
    if ms.len() > 0 {
        let init = ms.drop_last();
        assert forall|k: int| 0 <= k < init.len() implies 0 <= #[trigger] init[k] < ps.len() by {
            assert(init[k] == ms[k]);
        }
        lemma_level_raised(init, ps);
        let j = ms.last();
        assert(0 <= j < ps.len());
        assert(ps[j].threat_level != ThreatLevel::NoThreat);
    }
}

proof fn lemma_flagged_iff_matched(lines: Seq<Seq<char>>, ps: Seq<ThreatPattern>)
    ensures
        (flagged_lines(lines, ps).len() == 0) <==> (all_matches(lines, ps).len() == 0),
    decreases lines.len(),
{
    if lines.len() > 0 {
        lemma_flagged_iff_matched(lines.drop_last(), ps);
    }
}

/// The names of the patterns that `ps` matches in `content`, one per name in
/// the order in which they were first met.
pub open spec fn matched_names(content: Seq<char>, ps: Seq<ThreatPattern>) -> Seq<Seq<char>> {
    let ms = all_matches(lines_of(content), ps);
    names_at(first_by_name(ms, ps), ps)
}

/// For a catalog whose patterns all lie above `None`, a verdict's level is
/// `None` exactly when no pattern matched, exactly when no line is flagged,
/// and exactly when its confidence is the full one; otherwise the confidence
/// is the fixed confidence of a match, and the threat type names the matched
/// patterns.
pub proof fn lemma_verdict_consistent(
    r: DetectionResult,
    path: Seq<char>,
    content: Seq<char>,
    ps: Seq<ThreatPattern>,
)
    requires
        all_levels_raised(ps),
        is_verdict(r, path, content, ps),
    ensures
        (r.threat_level == ThreatLevel::NoThreat) <==> (matched_names(content, ps).len() == 0),
        (r.threat_level == ThreatLevel::NoThreat) <==> (r.confidence_percent
            == CLEAN_CONFIDENCE_PERCENT),
        (r.threat_level == ThreatLevel::NoThreat) <==> (r.line_numbers@.len() == 0),
        r.threat_level != ThreatLevel::NoThreat ==> r.confidence_percent
            == MATCH_CONFIDENCE_PERCENT && r.threat_type@ == join_with(
            matched_names(content, ps),
            ", "@,
        ),
{
    let lines = lines_of(content);
    let ms = all_matches(lines, ps);
    lemma_all_matches_in_range(lines, ps);
    lemma_level_raised(ms, ps);
    lemma_first_by_name_empty(ms, ps);
    lemma_flagged_iff_matched(lines, ps);
    assert(r.line_numbers@.map_values(|n: usize| n as int).len() == r.line_numbers@.len());
}

} // verus!
