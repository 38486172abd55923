//! Scanning, classification and remediation of scene and script files.
pub mod cleaner;
pub mod detector;
pub mod scanner;

use vstd::prelude::*;
use crate::ScanSummary;
use crate::error::UmbrellaError;
use crate::antivirus::detector::{
    flagged_lines, is_default_catalog, is_verdict, DetectionResult, PatternDetector,
};
use crate::antivirus::scanner::ScanResult;
use crate::text::lines_of;

verus! {

/// `a + b`, or `usize::MAX` when that does not fit.
pub open spec fn saturating_usize(a: int, b: int) -> int {
    if a + b > usize::MAX {
        usize::MAX as int
    } else {
        a + b
    }
}

/// The number of files that could be classified.
pub open spec fn scanned_count(vs: Seq<Result<DetectionResult, UmbrellaError>>) -> int
    decreases vs.len(),
{
    if vs.len() == 0 {
        0
    } else {
        scanned_count(vs.drop_last()) + if vs.last() is Ok {
            1int
        } else {
            0int
        }
    }
}

/// The number of flagged lines over the classified files, saturated at
/// `usize::MAX`.
pub open spec fn threat_count(vs: Seq<Result<DetectionResult, UmbrellaError>>) -> int
    decreases vs.len(),
{
    if vs.len() == 0 {
        0
    } else {
        let t = threat_count(vs.drop_last());
        match vs.last() {
            Ok(d) => saturating_usize(t, d.line_numbers@.len() as int),
            Err(_) => t,
        }
    }
}

/// Coordinates scanning, classification and cleaning.
pub struct AntivirusEngine {
    initialized: bool,
    detector: PatternDetector,
}

impl AntivirusEngine {
    /// The engine is ready to scan.
    pub closed spec fn is_ready(&self) -> bool {
        self.initialized
    }

    /// The catalog that the engine classifies with.
    pub closed spec fn spec_catalog(&self) -> Seq<detector::ThreatPattern> {
        self.detector.catalog()
    }

    /// A ready engine with the default catalog.
    pub fn new() -> (r: Result<Self, UmbrellaError>)
        ensures
            r is Ok,
            r->Ok_0.is_ready(),
            is_default_catalog(r->Ok_0.spec_catalog()),
    {
        Ok(AntivirusEngine { initialized: true, detector: PatternDetector::new() })
    }

    /// The detector that the engine classifies with.
    pub fn detector(&self) -> (r: &PatternDetector)
        ensures
            r.catalog() == self.spec_catalog(),
    {
        &self.detector
    }

    /// Classifies `content`, the text of the file at `file_path`.
    pub fn detect(&self, file_path: &str, content: &str) -> (r: DetectionResult)
        ensures
            is_verdict(r, file_path@, content@, self.spec_catalog()),
    {
        self.detector.detect(file_path, content)
    }

    /// The summary of scanning one file whose text is `content`; the scan took
    /// `duration_ms` milliseconds.
    pub fn scan_file(&self, file_path: &str, content: &str, duration_ms: u64) -> (r: Result<
        ScanSummary,
        UmbrellaError,
    >)
        ensures
            !self.is_ready() ==> (r matches Err(e) && e is Antivirus),
            self.is_ready() ==> (r matches Ok(s) && s.files_found == 1 && s.files_scanned == 1
                && s.scan_time_ms == duration_ms && s.threats_found == flagged_lines(
                lines_of(content@),
                self.spec_catalog(),
            ).len()),
    {
        if !self.initialized {
            return Err(UmbrellaError::Antivirus("Engine not initialized".to_string()));
        }
        let d = self.detector.detect(file_path, content);
        proof {
            assert(d.line_numbers@.map_values(|n: usize| n as int).len() == d.line_numbers@.len());
        }
        Ok(ScanSummary {
            files_found: 1,
            files_scanned: 1,
            threats_found: d.line_numbers.len(),
            scan_time_ms: duration_ms,
        })
    }

    /// The summary of scanning a directory: `located` lists the files found,
    /// and `verdicts` holds the verdict, or the error, of each file read; the
    /// scan took `duration_ms` milliseconds. A file that could not be read
    /// counts as found but not scanned; it does not end the scan.
    pub fn scan_directory(
        &self,
        located: &ScanResult,
        verdicts: &Vec<Result<DetectionResult, UmbrellaError>>,
        duration_ms: u64,
    ) -> (r: Result<ScanSummary, UmbrellaError>)
        ensures
            !self.is_ready() ==> (r matches Err(e) && e is Antivirus),
            self.is_ready() ==> (r matches Ok(s) && s.files_found == located.files@.len() && s.files_scanned
                == scanned_count(verdicts@) && s.threats_found == threat_count(verdicts@)
                && s.scan_time_ms == duration_ms),
    {
        if !self.initialized {
            return Err(UmbrellaError::Antivirus("Engine not initialized".to_string()));
        }
        let mut scanned: usize = 0;
        let mut threats: usize = 0;
        let mut i: usize = 0;
        while i < verdicts.len()
            invariant
                i <= verdicts@.len(),
                scanned as int == scanned_count(verdicts@.take(i as int)),
                threats as int == threat_count(verdicts@.take(i as int)),
            decreases verdicts@.len() - i,
        {
            proof {
                let t1 = verdicts@.take(i as int + 1);
                assert(t1.drop_last() =~= verdicts@.take(i as int));
                lemma_scanned_bound(verdicts@.take(i as int));
            }
            match &verdicts[i] {
                Ok(d) => {
                    scanned = scanned + 1;
                    threats = threats.saturating_add(d.line_numbers.len());
                },
                Err(_) => {},
            }
            i += 1;
        }
        proof {
            assert(verdicts@.take(verdicts@.len() as int) =~= verdicts@);
        }
        Ok(ScanSummary {
            files_found: located.files.len(),
            files_scanned: scanned,
            threats_found: threats,
            scan_time_ms: duration_ms,
        })
    }
}

proof fn lemma_scanned_bound(vs: Seq<Result<DetectionResult, UmbrellaError>>)
    ensures
        0 <= scanned_count(vs) <= vs.len(),
    decreases vs.len(),
{
    if vs.len() > 0 {
        lemma_scanned_bound(vs.drop_last());
    }
}

} // verus!
