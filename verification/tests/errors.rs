use rustdoc_loader::error::decimal;
use rustdoc_loader::{Cause, CauseKind, Field, IoStep, LoadError};

fn all_errors() -> Vec<LoadError> {
    vec![
        LoadError::Io { path: "a.json".to_string(), step: IoStep::Open, detail: "no such file".to_string() },
        LoadError::Io { path: "a.json".to_string(), step: IoStep::Read, detail: "interrupted".to_string() },
        LoadError::Encoding { path: "b.json".to_string(), detail: "invalid utf-8".to_string() },
        LoadError::Detection { path: "c.json".to_string(), cause: Cause::NoVersion },
        LoadError::UnsupportedVersion { path: "d.json".to_string(), version: 99 },
        LoadError::SchemaMismatch {
            path: "e.json".to_string(),
            version: 30,
            cause: Cause::Missing(Field::Root),
        },
    ]
}

#[test]
fn decimal_writes_exact_digits() {
    assert_eq!(decimal(0), "0");
    assert_eq!(decimal(7), "7");
    assert_eq!(decimal(9), "9");
    assert_eq!(decimal(10), "10");
    assert_eq!(decimal(28), "28");
    assert_eq!(decimal(99), "99");
    assert_eq!(decimal(100), "100");
    assert_eq!(decimal(1234567890), "1234567890");
    assert_eq!(decimal(4294967295), "4294967295");
}

#[test]
fn decimal_matches_the_standard_formatting() {
    for number in [1u32, 12, 123, 1000, 1001, 65535, 65536, 999999, 1000000, 4294967294] {
        assert_eq!(decimal(number), number.to_string());
    }
}

#[test]
fn messages_name_the_file_and_the_version() {
    let messages: Vec<String> = all_errors().iter().map(|error| error.message()).collect();
    assert_eq!(
        messages,
        vec![
            "failed to open rustdoc JSON file a.json",
            "failed to read rustdoc JSON file a.json",
            "failed to read rustdoc JSON file b.json",
            "unrecognized rustdoc format for file c.json",
            "rustdoc format v99 for file d.json is not supported",
            "unexpected parse error for v30 rustdoc for file e.json",
        ]
    );
}

#[test]
fn message_with_an_empty_path_and_the_largest_version() {
    let error = LoadError::UnsupportedVersion { path: String::new(), version: u32::MAX };
    assert_eq!(error.message(), "rustdoc format v4294967295 for file  is not supported");
    let error = LoadError::SchemaMismatch { path: String::new(), version: 0, cause: Cause::TooDeep };
    assert_eq!(error.message(), "unexpected parse error for v0 rustdoc for file ");
}

#[test]
fn every_error_gives_its_path() {
    let paths: Vec<String> = all_errors().iter().map(|error| error.path().to_string()).collect();
    assert_eq!(paths, vec!["a.json", "a.json", "b.json", "c.json", "d.json", "e.json"]);
}

#[test]
fn version_is_known_only_after_detection() {
    let versions: Vec<Option<u32>> = all_errors().iter().map(|error| error.version()).collect();
    assert_eq!(versions, vec![None, None, None, None, Some(99), Some(30)]);
}

#[test]
fn kind_of_a_cause_drops_only_the_wording() {
    assert_eq!(Cause::Syntax("expected value at line 1".to_string()).kind(), CauseKind::Syntax);
    assert_eq!(Cause::Syntax(String::new()).kind(), CauseKind::Syntax);
    assert_eq!(Cause::TooDeep.kind(), CauseKind::TooDeep);
    assert_eq!(Cause::NoVersion.kind(), CauseKind::NoVersion);
    assert_eq!(Cause::Missing(Field::Index).kind(), CauseKind::Missing(Field::Index));
    assert_eq!(Cause::Invalid(Field::Root).kind(), CauseKind::Invalid(Field::Root));
    assert_ne!(Cause::Missing(Field::Root).kind(), Cause::Invalid(Field::Root).kind());
}

#[test]
fn fields_have_the_names_of_the_document_members() {
    assert_eq!(Field::FormatVersion.name(), "format_version");
    assert_eq!(Field::Root.name(), "root");
    assert_eq!(Field::Index.name(), "index");
}
