use fex::fex::Fex;
use fex::record::FexFile;
use fex::record::FileType;
use fex::record::RawEntry;
use fex::record::RawMeta;
use fex::FexError;

fn entry(name: &str, is_file: bool, len: u64, secs: u64) -> RawEntry {
    RawEntry {
        name: name.to_string(),
        meta: Some(RawMeta { is_file, len, modified_secs: secs }),
    }
}

fn names(records: &[FexFile]) -> Vec<String> {
    records.iter().map(|r| r.name.clone()).collect()
}

#[test]
fn one_record_per_child_in_scan_order() {
    let mut fex = Fex::new();
    let scan = vec![
        entry("beta", true, 10, 0),
        entry("alpha", false, 0, 0),
        entry(".gamma", true, 3, 0),
    ];
    let records = fex.files("docs", Some(Ok(scan))).unwrap();
    assert_eq!(records.len(), 3);
    assert_eq!(names(&records), vec!["beta", "alpha", ".gamma"]);
}

#[test]
fn classification_of_children() {
    let mut fex = Fex::new();
    let scan = vec![
        entry(".hidden", true, 1, 0),
        entry(".hidden", false, 0, 0),
        entry("visible.txt", true, 1, 0),
        entry("sub", false, 0, 0),
    ];
    let records = fex.files("docs", Some(Ok(scan))).unwrap();
    assert!(matches!(records[0].file_type, FileType::HiddenFile));
    assert!(matches!(records[1].file_type, FileType::HiddenDir));
    assert!(matches!(records[2].file_type, FileType::File));
    assert!(matches!(records[3].file_type, FileType::Dir));
}

#[test]
fn size_is_byte_length_for_files_and_zero_for_directories() {
    let mut fex = Fex::new();
    let scan = vec![entry("a.txt", true, 1234, 0), entry("sub", false, 4096, 0)];
    let records = fex.files("docs", Some(Ok(scan))).unwrap();
    assert_eq!(records[0].len, 1234);
    assert_eq!(records[1].len, 0);
}

#[test]
fn missing_metadata_degrades_to_placeholder() {
    let mut fex = Fex::new();
    let scan = vec![
        entry("ok.txt", true, 5, 0),
        RawEntry { name: "broken".to_string(), meta: None },
    ];
    let records = fex.files("docs", Some(Ok(scan))).unwrap();
    assert_eq!(records.len(), 2);
    assert_eq!(records[1].name, "");
    assert_eq!(records[1].date, "");
    assert_eq!(records[1].time, "");
    assert_eq!(records[1].len, 0);
    assert!(matches!(records[1].file_type, FileType::File));
}

#[test]
fn out_of_range_timestamp_degrades_to_placeholder() {
    let mut fex = Fex::new();
    let scan = vec![entry("far.txt", true, 5, u64::MAX)];
    let records = fex.files("docs", Some(Ok(scan))).unwrap();
    assert_eq!(records[0].name, "");
    assert_eq!(records[0].len, 0);
}

#[test]
fn same_path_is_answered_from_the_cache() {
    let mut fex = Fex::new();
    let first = fex
        .files("docs", Some(Ok(vec![entry("old.txt", true, 1, 0)])))
        .unwrap();
    assert!(!fex.needs_scan("docs"));
    // The world changed between the calls; the cached snapshot must win.
    let second = fex
        .files("docs", Some(Ok(vec![entry("new.txt", true, 2, 0)])))
        .unwrap();
    assert_eq!(names(&first), vec!["old.txt"]);
    assert_eq!(names(&second), vec!["old.txt"]);
}

#[test]
fn empty_path_always_forces_a_fresh_scan() {
    let mut fex = Fex::new();
    let first = fex
        .files("", Some(Ok(vec![entry("a.txt", true, 1, 0)])))
        .unwrap();
    assert_eq!(names(&first), vec!["a.txt"]);
    assert!(fex.needs_scan(""));
    let second = fex
        .files("", Some(Ok(vec![entry("b.txt", true, 2, 0)])))
        .unwrap();
    assert_eq!(names(&second), vec!["b.txt"]);
}

#[test]
fn changed_path_forces_a_fresh_scan() {
    let mut fex = Fex::new();
    let first = fex
        .files("one", Some(Ok(vec![entry("a.txt", true, 1, 0)])))
        .unwrap();
    assert_eq!(names(&first), vec!["a.txt"]);
    assert!(fex.needs_scan("two"));
    let second = fex
        .files("two", Some(Ok(vec![entry("b.txt", true, 2, 0)])))
        .unwrap();
    assert_eq!(names(&second), vec!["b.txt"]);
}

#[test]
fn unreadable_directory_is_a_typed_error() {
    let mut fex = Fex::new();
    let result = fex.files("nope", Some(Err(())));
    assert_eq!(result.unwrap_err(), FexError::DirectoryUnreadable);
}

#[test]
fn missing_scan_outcome_is_a_typed_error() {
    let mut fex = Fex::new();
    let result = fex.files("nope", None);
    assert_eq!(result.unwrap_err(), FexError::DirectoryUnreadable);
}

#[test]
fn failed_scan_leaves_the_cache_untouched() {
    let mut fex = Fex::new();
    fex.files("docs", Some(Ok(vec![entry("keep.txt", true, 1, 0)])))
        .unwrap();
    let failed = fex.files("nope", Some(Err(())));
    assert_eq!(failed.unwrap_err(), FexError::DirectoryUnreadable);
    // The cached listing of "docs" survives the failed attempt.
    let cached = fex.files("docs", None).unwrap();
    assert_eq!(names(&cached), vec!["keep.txt"]);
}
