use umbrella::antivirus::cleaner::{
    BackupCleaner, CleanAction, CleanEvent, CleanOptions, CleanResult, CleanSession, CleanStatus,
    Cleaner,
};
use umbrella::antivirus::detector::{
    DetectionResult, Detector, PatternDetector, ThreatLevel, ThreatPattern,
};
use umbrella::antivirus::scanner::{
    DirEntryInfo, DirectoryWalk, EntryKind, FileSystemScanner, ScanOptions, ScanResult, Scanner,
};
use umbrella::antivirus::AntivirusEngine;
use umbrella::error::UmbrellaError;

const MALICIOUS: &str = "import maya.cmds\nos.system('rm -rf /')\nprint('Hello')";

#[test]
fn test_clean_options_default() {
    let options = CleanOptions::default();
    assert!(options.create_backup);
    assert!(options.backup_directory.is_none());
    assert!(!options.remove_original);
    assert!(options.in_place);
}

#[test]
fn test_clean_status_display() {
    assert_eq!(CleanStatus::Success.to_string(), "Success");
    assert_eq!(CleanStatus::Failed.to_string(), "Failed");
    assert_eq!(CleanStatus::AlreadyClean.to_string(), "Already Clean");
}

#[test]
fn test_backup_cleaner_creation() {
    let cleaner = BackupCleaner::new();
    assert_eq!(cleaner.name(), "BackupCleaner");
}

#[test]
fn test_can_clean() {
    let cleaner = BackupCleaner::new();
    assert!(cleaner.can_clean("test.py"));
    assert!(cleaner.can_clean("test.mel"));
    assert!(cleaner.can_clean("test.ma"));
    assert!(cleaner.can_clean("test.mb"));
    assert!(!cleaner.can_clean("test.txt"));
    assert!(!cleaner.can_clean("test.jpg"));
}

#[test]
fn test_clean_file_content() {
    let cleaner = BackupCleaner::new();

    let malicious_content = "import maya.cmds\nos.system('rm -rf /')\nprint('Hello')";
    let (cleaned, was_modified) = cleaner.clean_file_content(malicious_content);

    assert!(was_modified);
    assert!(cleaned.contains("# REMOVED BY UMBRELLA"));
    assert!(cleaned.contains("print('Hello')"));
}

#[test]
fn test_threat_level_display() {
    assert_eq!(ThreatLevel::NoThreat.to_string(), "None");
    assert_eq!(ThreatLevel::Low.to_string(), "Low");
    assert_eq!(ThreatLevel::Medium.to_string(), "Medium");
    assert_eq!(ThreatLevel::High.to_string(), "High");
    assert_eq!(ThreatLevel::Critical.to_string(), "Critical");
}

#[test]
fn test_detection_result_clean() {
    let result = DetectionResult::clean("test.py");
    assert_eq!(result.file_path, "test.py");
    assert_eq!(result.threat_level, ThreatLevel::NoThreat);
    assert_eq!(result.confidence_percent as f32 / 100.0, 1.0);
}

#[test]
fn test_pattern_detector_creation() {
    let detector = PatternDetector::new();
    assert_eq!(detector.name(), "PatternDetector");
    assert!(!detector.patterns().is_empty());
}

#[test]
fn test_threat_level_priority() {
    let detector = PatternDetector::new();
    assert!(detector.threat_level_priority(&ThreatLevel::Critical) > detector.threat_level_priority(&ThreatLevel::High));
    assert!(detector.threat_level_priority(&ThreatLevel::High) > detector.threat_level_priority(&ThreatLevel::Medium));
    assert!(detector.threat_level_priority(&ThreatLevel::Medium) > detector.threat_level_priority(&ThreatLevel::Low));
    assert!(detector.threat_level_priority(&ThreatLevel::Low) > detector.threat_level_priority(&ThreatLevel::NoThreat));
}

#[test]
fn test_antivirus_engine_creation() {
    let engine = AntivirusEngine::new();
    assert!(engine.is_ok());
}

#[test]
fn test_scan_options_default() {
    let options = ScanOptions::default();
    assert!(options.recursive);
    assert!(options.include_extensions.contains(&"ma".to_string()));
    assert!(options.include_extensions.contains(&"mb".to_string()));
    assert!(options.include_extensions.contains(&"mel".to_string()));
    assert!(options.include_extensions.contains(&"py".to_string()));
}

#[test]
fn test_should_include_file() {
    let scanner = FileSystemScanner::new();
    let options = ScanOptions::default();

    // Scene and script files
    assert!(scanner.should_include_file("test.ma", None, &options));
    assert!(scanner.should_include_file("test.mb", None, &options));
    assert!(scanner.should_include_file("test.mel", None, &options));
    assert!(scanner.should_include_file("test.py", None, &options));

    // Other files
    assert!(!scanner.should_include_file("test.txt", None, &options));
    assert!(!scanner.should_include_file("test.jpg", None, &options));
}

#[test]
fn test_file_system_scanner_creation() {
    let scanner = FileSystemScanner::new();
    assert_eq!(scanner.name(), "FileSystemScanner");
}

// Classification.

#[test]
fn detects_system_call_on_its_line() {
    let detector = PatternDetector::new();
    let r = detector.detect("scene/test.py", MALICIOUS);
    assert_eq!(r.file_path, "scene/test.py");
    assert_eq!(r.threat_level, ThreatLevel::Medium);
    assert_eq!(r.line_numbers, vec![2]);
    assert_eq!(r.confidence_percent, 80);
    assert_eq!(r.threat_type, "File System Access");
    assert_eq!(r.description, "Direct system command execution");
}

#[test]
fn detection_is_case_insensitive() {
    let detector = PatternDetector::new();
    let r = detector.detect("a.py", "x = 1\nOS.SYSTEM('ls')\n");
    assert_eq!(r.threat_level, ThreatLevel::Medium);
    assert_eq!(r.line_numbers, vec![2]);
}

#[test]
fn detection_reports_highest_level_and_first_seen_names() {
    let detector = PatternDetector::new();
    let content = "import os\nos.system('x')\nimport winreg\nos.system('y')\n";
    let r = detector.detect("a.py", content);
    assert_eq!(r.threat_level, ThreatLevel::Critical);
    assert_eq!(r.line_numbers, vec![1, 2, 3, 4]);
    assert_eq!(r.threat_type, "Suspicious Import, File System Access, Registry Access");
    assert_eq!(
        r.description,
        "Potentially suspicious import statement; Direct system command execution; Windows registry access detected"
    );
}

#[test]
fn clean_content_has_no_threat() {
    let detector = PatternDetector::new();
    let r = detector.detect("a.py", "print('hello')\nx = 2\n");
    assert_eq!(r.threat_level, ThreatLevel::NoThreat);
    assert!(r.line_numbers.is_empty());
    assert_eq!(r.confidence_percent, 100);
    assert_eq!(r.threat_type, "None");
    assert_eq!(r.description, "No threats detected");
}

#[test]
fn empty_content_has_no_threat() {
    let detector = PatternDetector::new();
    let r = detector.detect("a.py", "");
    assert_eq!(r.threat_level, ThreatLevel::NoThreat);
    assert_eq!(r.confidence_percent, 100);
}

#[test]
fn level_none_iff_no_match_iff_full_confidence() {
    let detector = PatternDetector::new();
    for content in ["a\nb\n", "eval(x)\n", "", "shutil.rmtree('/')"] {
        let r = detector.detect("a.py", content);
        let none = r.threat_level == ThreatLevel::NoThreat;
        assert_eq!(none, r.line_numbers.is_empty());
        assert_eq!(none, r.confidence_percent == 100);
        assert_eq!(none, r.threat_type == "None");
    }
}

#[test]
fn custom_pattern_extends_catalog() {
    let mut detector = PatternDetector::new();
    let before = detector.patterns().len();
    detector.add_pattern(ThreatPattern {
        name: "Script Job".to_string(),
        pattern: "scriptJob".to_string(),
        threat_level: ThreatLevel::High,
        description: "Script job registration".to_string(),
    });
    assert_eq!(detector.patterns().len(), before + 1);
    let r = detector.detect("a.mel", "print 1;\nSCRIPTJOB -e x;\n");
    assert_eq!(r.threat_level, ThreatLevel::High);
    assert_eq!(r.line_numbers, vec![2]);
    assert_eq!(r.threat_type, "Script Job");
}

#[test]
fn default_catalog_levels() {
    let detector = PatternDetector::new();
    let ps = detector.patterns();
    assert_eq!(ps.len(), 17);
    assert_eq!(ps[0].pattern, "import os");
    assert_eq!(ps[0].threat_level, ThreatLevel::Low);
    assert_eq!(ps[16].name, "Registry Access");
    assert_eq!(ps[16].threat_level, ThreatLevel::Critical);
    assert!(ps.iter().all(|p| p.threat_level != ThreatLevel::NoThreat));
    assert_eq!(detector.version(), "1.0.0");
}

// Remediation.

#[test]
fn neutralizes_only_dangerous_lines() {
    let cleaner = BackupCleaner::new();
    let (cleaned, modified) = cleaner.clean_file_content(MALICIOUS);
    assert!(modified);
    assert_eq!(
        cleaned,
        "import maya.cmds\n# REMOVED BY UMBRELLA: os.system('rm -rf /')\nprint('Hello')\n"
    );
}

#[test]
fn cleaning_twice_changes_nothing_more() {
    let cleaner = BackupCleaner::new();
    let content = "a\r\nEVAL(x)\nexec(y)\n\nsubprocess.call(z)";
    let (once, modified) = cleaner.clean_file_content(content);
    assert!(modified);
    let (twice, again) = cleaner.clean_file_content(&once);
    assert!(!again);
    assert_eq!(twice, once);
}

#[test]
fn cleaning_keeps_line_count() {
    let cleaner = BackupCleaner::new();
    for content in [MALICIOUS, "", "\n\n", "eval(1)\n\neval(2)", "a\r\nb"] {
        let (cleaned, _) = cleaner.clean_file_content(content);
        assert_eq!(cleaned.lines().count(), content.lines().count());
    }
}

fn finish(action: CleanAction) -> Result<CleanResult, UmbrellaError> {
    match action {
        CleanAction::Finish(r) => r,
        other => panic!("expected the end of the clean, got {:?}", other),
    }
}

#[test]
fn clean_with_defaults_backs_up_then_writes() {
    let cleaner = BackupCleaner::new();
    let (mut session, action) = cleaner.clean("scene/test.py", CleanOptions::default(), 1700000000);
    match action {
        CleanAction::ReadFile(p) => assert_eq!(p, "scene/test.py"),
        other => panic!("unexpected {:?}", other),
    }
    match session.step(CleanEvent::FileRead(MALICIOUS.to_string())) {
        CleanAction::CreateBackup { directory, backup_path, content } => {
            assert_eq!(content, MALICIOUS);
            assert_eq!(directory, "scene/_virus_backup");
            assert_eq!(backup_path, "scene/_virus_backup/1700000000_test.py");
        }
        other => panic!("unexpected {:?}", other),
    }
    match session.step(CleanEvent::BackupWritten) {
        CleanAction::WriteOutput { path, content } => {
            assert_eq!(path, "scene/test.py");
            assert_eq!(
                content,
                "import maya.cmds\n# REMOVED BY UMBRELLA: os.system('rm -rf /')\nprint('Hello')\n"
            );
        }
        other => panic!("unexpected {:?}", other),
    }
    let r = finish(session.step(CleanEvent::OutputWritten)).unwrap();
    assert_eq!(r.status, CleanStatus::Success);
    assert_eq!(r.message, "File successfully cleaned");
    assert_eq!(r.backup_path.as_deref(), Some("scene/_virus_backup/1700000000_test.py"));
}

#[test]
fn clean_of_clean_file_writes_nothing() {
    let (mut session, _) = CleanSession::start("a.py", CleanOptions::default(), 5);
    let r = finish(session.step(CleanEvent::FileRead("print('hi')\n".to_string()))).unwrap();
    assert_eq!(r.status, CleanStatus::AlreadyClean);
    assert_eq!(r.message, "File is already clean");
    assert!(r.backup_path.is_none());
}

#[test]
fn second_clean_reports_already_clean() {
    let (once, _) = BackupCleaner::new().clean_file_content(MALICIOUS);
    let (mut session, _) = CleanSession::start("a.py", CleanOptions::default(), 5);
    let r = finish(session.step(CleanEvent::FileRead(once))).unwrap();
    assert_eq!(r.status, CleanStatus::AlreadyClean);
}

#[test]
fn unsupported_type_fails_without_reading() {
    let (_, action) = CleanSession::start("notes.txt", CleanOptions::default(), 5);
    let r = finish(action).unwrap();
    assert_eq!(r.status, CleanStatus::Failed);
    assert_eq!(r.message, "File type not supported for cleaning");
}

#[test]
fn missing_file_fails() {
    let (mut session, _) = CleanSession::start("gone.py", CleanOptions::default(), 5);
    let r = finish(session.step(CleanEvent::FileMissing)).unwrap();
    assert_eq!(r.status, CleanStatus::Failed);
    assert_eq!(r.message, "File does not exist");
}

#[test]
fn read_failure_is_read_error() {
    let (mut session, _) = CleanSession::start("a.py", CleanOptions::default(), 5);
    let e = finish(session.step(CleanEvent::ReadFailed("bad utf-8".to_string()))).unwrap_err();
    assert!(matches!(e, UmbrellaError::ReadError(_)));
}

#[test]
fn backup_failure_stops_before_write() {
    let (mut session, _) = CleanSession::start("a.py", CleanOptions::default(), 5);
    assert!(matches!(
        session.step(CleanEvent::FileRead("eval(1)".to_string())),
        CleanAction::CreateBackup { .. }
    ));
    let e = finish(session.step(CleanEvent::BackupFailed("disk full".to_string()))).unwrap_err();
    assert!(matches!(e, UmbrellaError::WriteError(_)));
    assert!(matches!(
        session.step(CleanEvent::OutputWritten),
        CleanAction::Finish(Err(UmbrellaError::Antivirus(_)))
    ));
}

#[test]
fn write_failure_is_write_error() {
    let options = CleanOptions { create_backup: false, ..CleanOptions::default() };
    let (mut session, _) = CleanSession::start("a.py", options, 5);
    assert!(matches!(
        session.step(CleanEvent::FileRead("eval(1)".to_string())),
        CleanAction::WriteOutput { .. }
    ));
    let e = finish(session.step(CleanEvent::WriteFailed("read-only".to_string()))).unwrap_err();
    assert!(matches!(e, UmbrellaError::WriteError(_)));
}

#[test]
fn out_of_place_clean_writes_sibling_without_backup() {
    let options = CleanOptions {
        create_backup: false,
        backup_directory: None,
        remove_original: false,
        in_place: false,
    };
    let (mut session, _) = CleanSession::start("dir/a.PY", options, 5);
    match session.step(CleanEvent::FileRead("exec(code)".to_string())) {
        CleanAction::WriteOutput { path, content } => {
            assert_eq!(path, "dir/a.cleaned");
            assert_eq!(content, "# REMOVED BY UMBRELLA: exec(code)\n");
        }
        other => panic!("unexpected {:?}", other),
    }
    let r = finish(session.step(CleanEvent::OutputWritten)).unwrap();
    assert_eq!(r.status, CleanStatus::Success);
    assert!(r.backup_path.is_none());
}

#[test]
fn backup_directory_override() {
    let options = CleanOptions { backup_directory: Some("/backups/".to_string()), ..CleanOptions::default() };
    let (mut session, _) = CleanSession::start("/work/scene.ma", options, 42);
    match session.step(CleanEvent::FileRead("eval(1)".to_string())) {
        CleanAction::CreateBackup { directory, backup_path, .. } => {
            assert_eq!(directory, "/backups/");
            assert_eq!(backup_path, "/backups/42_scene.ma");
        }
        other => panic!("unexpected {:?}", other),
    }
}

#[test]
fn backup_of_bare_file_name_goes_to_relative_directory() {
    let (mut session, _) = CleanSession::start("scene.mel", CleanOptions::default(), 0);
    match session.step(CleanEvent::FileRead("eval(1)".to_string())) {
        CleanAction::CreateBackup { directory, backup_path, .. } => {
            assert_eq!(directory, "_virus_backup");
            assert_eq!(backup_path, "_virus_backup/0_scene.mel");
        }
        other => panic!("unexpected {:?}", other),
    }
}

#[test]
fn clean_result_constructors() {
    let r = CleanResult::success("a.py", "done", Some("b".to_string()));
    assert_eq!(r.status, CleanStatus::Success);
    assert_eq!(r.backup_path.as_deref(), Some("b"));
    let r = CleanResult::failed("a.py", "no");
    assert_eq!(r.status, CleanStatus::Failed);
    assert_eq!(r.message, "no");
    let r = CleanResult::already_clean("a.py");
    assert_eq!(r.status, CleanStatus::AlreadyClean);
    assert_eq!(CleanStatus::Quarantined.to_string(), "Quarantined");
    assert_eq!(CleanStatus::BackupCreated.to_string(), "Backup Created");
}

// Discovery.

fn entry(path: &str, kind: EntryKind, is_symlink: bool, size: Option<u64>, identity: &str) -> DirEntryInfo {
    DirEntryInfo {
        path: path.to_string(),
        kind,
        is_symlink,
        size,
        identity: identity.to_string(),
    }
}

#[test]
fn empty_directory_scan_finds_nothing() {
    let mut walk = DirectoryWalk::new("root", "/abs/root", ScanOptions::default());
    assert_eq!(walk.next_directory().as_deref(), Some("root"));
    walk.visit(&Vec::new());
    assert!(walk.next_directory().is_none());
    let result = walk.finish(3);
    assert!(result.files.is_empty());
    assert_eq!(result.directories_scanned, 1);
    assert_eq!(result.total_size, 0);
    let engine = AntivirusEngine::new().unwrap();
    let summary = engine.scan_directory(&result, &Vec::new(), 3).unwrap();
    assert_eq!(summary.files_found, 0);
    assert_eq!(summary.threats_found, 0);
    assert_eq!(summary.files_scanned, 0);
}

#[test]
fn walk_keeps_candidates_and_enters_directories() {
    let mut walk = DirectoryWalk::new("root", "/r", ScanOptions::default());
    let _ = walk.next_directory();
    walk.visit(&vec![
        entry("root/a.py", EntryKind::File, false, Some(10), ""),
        entry("root/b.txt", EntryKind::File, false, Some(20), ""),
        entry("root/big.ma", EntryKind::File, false, Some(200 * 1024 * 1024), ""),
        entry("root/sub", EntryKind::Directory, false, None, "/r/sub"),
        entry("root/link", EntryKind::Directory, true, None, "/r/sub"),
    ]);
    assert_eq!(walk.next_directory().as_deref(), Some("root/sub"));
    walk.visit(&vec![entry("root/sub/c.MEL", EntryKind::File, false, None, "")]);
    assert!(walk.next_directory().is_none());
    let result = walk.finish(0);
    assert_eq!(result.files, vec!["root/a.py".to_string(), "root/sub/c.MEL".to_string()]);
    assert_eq!(result.directories_scanned, 2);
    assert_eq!(result.total_size, 10);
}

#[test]
fn symlink_cycle_is_walked_once() {
    let options = ScanOptions { follow_symlinks: true, ..ScanOptions::default() };
    let mut walk = DirectoryWalk::new("root", "/r", options);
    let mut listings = 0;
    while let Some(dir) = walk.next_directory() {
        listings += 1;
        assert!(listings < 10, "the walk does not end");
        // Every directory holds a link back to the root and a link to itself.
        walk.visit(&vec![
            entry(&format!("{}/up", dir), EntryKind::Directory, true, None, "/r"),
            entry(&format!("{}/self", dir), EntryKind::Directory, true, None, "/r/d"),
            entry(&format!("{}/d", dir), EntryKind::Directory, false, None, "/r/d"),
        ]);
    }
    assert_eq!(listings, 2);
}

#[test]
fn symlinked_directories_are_not_entered_by_default() {
    let mut walk = DirectoryWalk::new("root", "/r", ScanOptions::default());
    let _ = walk.next_directory();
    walk.visit(&vec![entry("root/loop", EntryKind::Directory, true, None, "/elsewhere")]);
    assert!(walk.next_directory().is_none());
}

#[test]
fn non_recursive_scan_stays_at_top() {
    let options = ScanOptions { recursive: false, ..ScanOptions::default() };
    let mut walk = DirectoryWalk::new("root", "/r", options);
    let _ = walk.next_directory();
    walk.visit(&vec![entry("root/sub", EntryKind::Directory, false, None, "/r/sub")]);
    assert!(walk.next_directory().is_none());
}

#[test]
fn exclusion_wins_over_inclusion() {
    let scanner = FileSystemScanner::new();
    let options = ScanOptions {
        recursive: true,
        include_extensions: vec!["py".to_string(), "mel".to_string()],
        exclude_extensions: vec!["PY".to_string()],
        max_file_size: None,
        follow_symlinks: false,
    };
    assert!(!scanner.should_include_file("a.py", Some(1), &options));
    assert!(!scanner.should_include_file("a.Py", None, &options));
    assert!(scanner.should_include_file("a.mel", None, &options));
}

#[test]
fn filter_edge_cases() {
    let scanner = FileSystemScanner::new();
    let options = ScanOptions::default();
    assert!(scanner.should_include_file("dir/SCENE.MA", Some(100), &options));
    assert!(scanner.should_include_file("Makefile", None, &options));
    assert!(!scanner.should_include_file("x.py", Some(100 * 1024 * 1024 + 1), &options));
    assert!(scanner.should_include_file("x.py", Some(100 * 1024 * 1024), &options));
    let any = ScanOptions { include_extensions: Vec::new(), ..ScanOptions::default() };
    assert!(scanner.should_include_file("x.jpg", None, &any));
}

#[test]
fn single_file_scan() {
    let scanner = FileSystemScanner::new();
    let r = scanner.scan_single_file("a.py", Some(12), &ScanOptions::default(), 1);
    assert_eq!(r.files, vec!["a.py".to_string()]);
    assert_eq!(r.total_size, 12);
    assert_eq!(r.directories_scanned, 0);
    let r = scanner.scan_single_file("a.txt", Some(12), &ScanOptions::default(), 1);
    assert!(r.files.is_empty());
    assert_eq!(r.total_size, 0);
}

// Engine.

#[test]
fn engine_scans_one_file() {
    let engine = AntivirusEngine::new().unwrap();
    let s = engine.scan_file("a.py", MALICIOUS, 7).unwrap();
    assert_eq!(s.files_found, 1);
    assert_eq!(s.files_scanned, 1);
    assert_eq!(s.threats_found, 1);
    assert_eq!(s.scan_time_ms, 7);
}

#[test]
fn engine_counts_unreadable_files_as_not_scanned() {
    let engine = AntivirusEngine::new().unwrap();
    let verdicts = vec![
        Ok(engine.detect("a.py", "eval(1)\nexec(2)\n")),
        Err(UmbrellaError::ReadError("binary".to_string())),
        Ok(engine.detect("c.py", "print(1)\n")),
    ];
    let located = ScanResult {
        files: vec!["a.py".to_string(), "b.py".to_string(), "c.py".to_string()],
        directories_scanned: 1,
        total_size: 30,
        duration_ms: 1,
    };
    let s = engine.scan_directory(&located, &verdicts, 9).unwrap();
    assert_eq!(s.files_found, 3);
    assert_eq!(s.files_scanned, 2);
    assert_eq!(s.threats_found, 2);
    assert_eq!(s.scan_time_ms, 9);
}

#[test]
fn detector_and_scanner_traits() {
    let detector = PatternDetector::new();
    let as_trait: &dyn Detector = &detector;
    assert_eq!(as_trait.name(), "PatternDetector");
    assert_eq!(as_trait.version(), "1.0.0");
    assert_eq!(as_trait.detect("a.py", "eval(x)").threat_level, ThreatLevel::High);
    let scanner = FileSystemScanner::new();
    let as_trait: &dyn Scanner = &scanner;
    assert_eq!(as_trait.name(), "FileSystemScanner");
    assert!(as_trait.should_include_file("x.mel", None, &ScanOptions::default()));
}

#[test]
fn catalog_loaded_at_run_time() {
    let detector = PatternDetector::with_patterns(vec![ThreatPattern {
        name: "Deferred".to_string(),
        pattern: "evalDeferred".to_string(),
        threat_level: ThreatLevel::Low,
        description: "Deferred evaluation".to_string(),
    }]);
    assert_eq!(detector.patterns().len(), 1);
    let r = detector.detect("a.py", "cmds.EVALDEFERRED(f)\nos.system('x')\n");
    assert_eq!(r.threat_level, ThreatLevel::Low);
    assert_eq!(r.line_numbers, vec![1]);
}

#[test]
fn clean_error_messages() {
    let (mut session, _) = CleanSession::start("a.py", CleanOptions::default(), 5);
    match finish(session.step(CleanEvent::ReadFailed("bad".to_string()))) {
        Err(UmbrellaError::ReadError(m)) => assert_eq!(m, "Failed to read file: bad"),
        other => panic!("unexpected {:?}", other),
    }
    let (mut session, _) = CleanSession::start("a.py", CleanOptions::default(), 5);
    let _ = session.step(CleanEvent::FileRead("eval(1)".to_string()));
    match finish(session.step(CleanEvent::BackupFailed("full".to_string()))) {
        Err(UmbrellaError::WriteError(m)) => assert_eq!(m, "Failed to create backup: full"),
        other => panic!("unexpected {:?}", other),
    }
}
