use locksmith::errors::CoreError;
use locksmith::handle_ext::FILE_TYPE_DISK;
use locksmith::path_ext::{
    begin_resolve, is_same_or_ancestor_of, prefix_eq_ignore_case, to_ascii_lower,
    win32_path_to_nt_path, ResolveEvent, ResolveStep,
};

#[test]
fn test_is_same_or_ancestor_of_exact_match() {
    assert!(is_same_or_ancestor_of(
        r"\\Device\HarddiskVolume1\Users",
        r"\\Device\HarddiskVolume1\Users"
    ));
}

#[test]
fn test_is_same_or_ancestor_of_subject_is_child() {
    assert!(is_same_or_ancestor_of(
        r"\\Device\HarddiskVolume1\Users",
        r"\\Device\HarddiskVolume1\Users\TestUser"
    ));
}

#[test]
fn test_is_same_or_ancestor_of_subject_is_grandchild() {
    assert!(is_same_or_ancestor_of(
        r"\\Device\HarddiskVolume1\Users",
        r"\\Device\HarddiskVolume1\Users\TestUser\file.txt"
    ));
}

#[test]
fn test_is_same_or_ancestor_of_different_paths() {
    assert!(!is_same_or_ancestor_of(
        r"\\Device\HarddiskVolume1\Users",
        r"\\Device\HarddiskVolume1\Windows"
    ));
}

#[test]
fn test_is_same_or_ancestor_of_partial_match_not_ancestor() {
    assert!(!is_same_or_ancestor_of(
        r"\\Device\HarddiskVolume1\Users",
        r"\\Device\HarddiskVolume1\User"
    ));
}

#[test]
fn test_is_same_or_ancestor_of_reference_is_child_of_subject() {
    assert!(!is_same_or_ancestor_of(
        r"\\Device\HarddiskVolume1\Users\TestUser",
        r"\\Device\HarddiskVolume1\Users"
    ));
}

#[test]
fn test_is_same_or_ancestor_of_empty_paths() {
    assert!(is_same_or_ancestor_of("", ""));
    assert!(!is_same_or_ancestor_of("a", ""));
    assert!(!is_same_or_ancestor_of("", "a"));
}

#[test]
fn test_is_same_or_ancestor_of_no_trailing_slash_on_reference() {
    assert!(is_same_or_ancestor_of(
        r"\\Device\HarddiskVolume1\Users",
        r"\\Device\HarddiskVolume1\Users\Test"
    ));
}

#[test]
fn test_is_same_or_ancestor_of_subject_is_shorter_and_starts_with() {
    assert!(!is_same_or_ancestor_of(
        r"\\Device\HarddiskVolume1\Users\Project",
        r"\\Device\HarddiskVolume1\Users"
    ));
}

#[test]
fn test_is_same_or_ancestor_of_different_casing() {
    assert!(is_same_or_ancestor_of(
        r"\\DEVICE\HarddiskVolume1\Users",
        r"\\Device\HarddiskVolume1\Users"
    ));
    assert!(is_same_or_ancestor_of(
        r"\\Device\HarddiskVolume1\Users",
        r"\\Device\HarddiskVolume1\USERS\TestUser"
    ));
    assert!(is_same_or_ancestor_of(
        r"\\Device\HarddiskVolume1\USERS\",
        r"\\Device\HarddiskVolume1\Users\TestUser"
    ));
}

#[test]
fn test_is_same_or_ancestor_of_reference_ends_with_slash() {
    assert!(is_same_or_ancestor_of(
        r"\\Device\HarddiskVolume1\Users\",
        r"\\Device\HarddiskVolume1\Users\TestUser"
    ));
    assert!(is_same_or_ancestor_of(
        r"\\Device\HarddiskVolume1\Users\",
        r"\\Device\HarddiskVolume1\Users\"
    ));
    assert!(!is_same_or_ancestor_of(
        r"\\Device\HarddiskVolume1\Users\",
        r"\\Device\HarddiskVolume1\Users"
    ));
}

#[test]
fn test_is_same_or_ancestor_of_not_direct_child() {
    assert!(!is_same_or_ancestor_of(
        r"\\Device\HarddiskVolume1\Us",
        r"\\Device\HarddiskVolume1\Users"
    ));
}

#[test]
fn same_path_is_its_own_ancestor() {
    for p in ["", r"\", r"\Device\Vol1", r"\Device\Vol1\", "ünïcode\\päth"] {
        assert!(is_same_or_ancestor_of(p, p));
    }
}

#[test]
fn boundary_must_be_a_separator() {
    assert!(!is_same_or_ancestor_of(r"\Device\Vol1\Users", r"\Device\Vol1\Users2"));
    assert!(is_same_or_ancestor_of(r"\Device\Vol1\Users", r"\Device\Vol1\Users\Bob"));
}

#[test]
fn case_of_ascii_letters_is_ignored() {
    assert!(is_same_or_ancestor_of(r"\DEVICE\Vol1", r"\device\vol1\x"));
    assert!(is_same_or_ancestor_of(r"\device\vol1", r"\DEVICE\VOL1"));
    assert!(!is_same_or_ancestor_of("é", "É"));
}

#[test]
fn strict_ancestor_is_not_symmetric() {
    let a = r"\Device\Vol1\Users";
    let b = r"\Device\Vol1\Users\Bob";
    assert!(is_same_or_ancestor_of(a, b));
    assert!(!is_same_or_ancestor_of(b, a));
}

#[test]
fn trailing_separator_on_reference() {
    assert!(is_same_or_ancestor_of(r"\Device\Vol1\Users\", r"\Device\Vol1\Users\Bob"));
    assert!(!is_same_or_ancestor_of(r"\Device\Vol1\Users\", r"\Device\Vol1\Users"));
}

#[test]
fn empty_reference_matches_no_other_path() {
    assert!(!is_same_or_ancestor_of("", r"\Device"));
    assert!(!is_same_or_ancestor_of("", r"\"));
}

#[test]
fn subject_that_is_cut_inside_a_character_does_not_match() {
    assert!(!is_same_or_ancestor_of("a", "é"));
    assert!(!is_same_or_ancestor_of("\u{c3}", "é\\x"));
}

#[test]
fn lower_casing_touches_upper_case_letters_only() {
    assert_eq!(to_ascii_lower(b'A'), b'a');
    assert_eq!(to_ascii_lower(b'Z'), b'z');
    assert_eq!(to_ascii_lower(b'@'), b'@');
    assert_eq!(to_ascii_lower(b'['), b'[');
    assert_eq!(to_ascii_lower(b'\\'), b'\\');
    assert_eq!(to_ascii_lower(b'a'), b'a');
    assert_eq!(to_ascii_lower(0xC9), 0xC9);
}

#[test]
fn prefix_comparison_looks_at_the_prefix_only() {
    assert!(prefix_eq_ignore_case(b"ABCx", b"abcy", 3));
    assert!(!prefix_eq_ignore_case(b"ABCx", b"abcy", 4));
    assert!(prefix_eq_ignore_case(b"x", b"y", 0));
    assert!(!prefix_eq_ignore_case(b"abc", b"abcd", 4));
    assert!(!prefix_eq_ignore_case(b"abcd", b"abc", 4));
}

#[test]
fn resolving_an_existing_disk_file() {
    let step = begin_resolve(r"C:\data\report.docx");
    assert_eq!(step, ResolveStep::OpenFile);
    let step = win32_path_to_nt_path(step, ResolveEvent::Opened { valid: true });
    assert_eq!(step, ResolveStep::QueryFileType);
    let step = win32_path_to_nt_path(step, ResolveEvent::FileType(FILE_TYPE_DISK));
    assert_eq!(step, ResolveStep::QueryName);
    let name = r"\Device\HarddiskVolume3\data\report.docx".to_string();
    let step = win32_path_to_nt_path(step, ResolveEvent::Name(Ok(name.clone())));
    assert_eq!(step, ResolveStep::Resolved(name.clone()));
    let step = win32_path_to_nt_path(step, ResolveEvent::OpenFailed);
    assert_eq!(step, ResolveStep::Resolved(name));
}

#[test]
fn missing_target_is_not_found() {
    let step = begin_resolve(r"C:\no\such\file");
    let step = win32_path_to_nt_path(step, ResolveEvent::OpenFailed);
    assert_eq!(step, ResolveStep::Failed(CoreError::TargetNotFound));
    let step = win32_path_to_nt_path(step, ResolveEvent::Opened { valid: true });
    assert_eq!(step, ResolveStep::Failed(CoreError::TargetNotFound));
}

#[test]
fn empty_target_is_not_found() {
    assert_eq!(begin_resolve(""), ResolveStep::Failed(CoreError::TargetNotFound));
}

#[test]
fn invalid_handle_is_not_found() {
    let step = win32_path_to_nt_path(ResolveStep::OpenFile, ResolveEvent::Opened { valid: false });
    assert_eq!(step, ResolveStep::Failed(CoreError::TargetNotFound));
}

#[test]
fn pipe_is_not_a_file() {
    let step = win32_path_to_nt_path(ResolveStep::QueryFileType, ResolveEvent::FileType(3));
    assert_eq!(step, ResolveStep::Failed(CoreError::TargetNotAFile));
}

#[test]
fn name_failure_is_passed_on() {
    let step = win32_path_to_nt_path(
        ResolveStep::QueryName,
        ResolveEvent::Name(Err(CoreError::QueryFailed(-1073741790))),
    );
    assert_eq!(step, ResolveStep::Failed(CoreError::QueryFailed(-1073741790)));
    let step = win32_path_to_nt_path(
        ResolveStep::QueryName,
        ResolveEvent::Name(Err(CoreError::MalformedName)),
    );
    assert_eq!(step, ResolveStep::Failed(CoreError::MalformedName));
}

#[test]
fn event_out_of_turn_ends_the_search() {
    let step = win32_path_to_nt_path(ResolveStep::OpenFile, ResolveEvent::FileType(FILE_TYPE_DISK));
    assert_eq!(step, ResolveStep::Failed(CoreError::TargetNotFound));
    let step = win32_path_to_nt_path(ResolveStep::QueryFileType, ResolveEvent::OpenFailed);
    assert_eq!(step, ResolveStep::Failed(CoreError::TargetNotFound));
    let step = win32_path_to_nt_path(ResolveStep::QueryName, ResolveEvent::FileType(1));
    assert_eq!(step, ResolveStep::Failed(CoreError::TargetNotFound));
}
