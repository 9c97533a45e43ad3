use rustdoc_loader::{
    load_rustdoc, simd_load_rustdoc, Cause, CauseKind, Field, LoadError, SupportedVersion,
    VersionedCrate,
};

const PATH: &str = "target/doc/sample.json";

fn standard(text: &str) -> Result<VersionedCrate, LoadError> {
    load_rustdoc(PATH, text.as_bytes())
}

fn accelerated(text: &str) -> Result<VersionedCrate, LoadError> {
    simd_load_rustdoc(PATH, text.as_bytes().to_vec())
}

fn minimal(version: u32) -> String {
    format!("{{\"format_version\": {version}, \"index\": {{}}, \"root\": \"0:0\"}}")
}

fn nested(levels: usize) -> String {
    format!(
        "{{\"format_version\": 30, \"root\": \"0:0\", \"index\": {{}}, \"extra\": {}{}}}",
        "[".repeat(levels),
        "]".repeat(levels)
    )
}

fn detection_kind(result: Result<VersionedCrate, LoadError>) -> CauseKind {
    match result {
        Err(LoadError::Detection { path, cause }) => {
            assert_eq!(path, PATH);
            cause.kind()
        }
        other => panic!("expected a detection error, got {other:?}"),
    }
}

fn mismatch(result: Result<VersionedCrate, LoadError>) -> (u32, CauseKind) {
    match result {
        Err(LoadError::SchemaMismatch { path, version, cause }) => {
            assert_eq!(path, PATH);
            (version, cause.kind())
        }
        other => panic!("expected a schema mismatch, got {other:?}"),
    }
}

#[test]
fn version_30_document_loads_on_both_paths() {
    let text = r#"{"format_version": 30, "index": {}, "root": "0:0"}"#;
    let first = standard(text).unwrap();
    let second = accelerated(text).unwrap();
    for loaded in [&first, &second] {
        assert!(matches!(loaded, VersionedCrate::V30(_)));
        assert_eq!(loaded.version(), 30);
        assert_eq!(loaded.tag(), SupportedVersion::V30);
        assert_eq!(loaded.body().format_version(), 30);
        assert_eq!(loaded.body().root(), "0:0");
        assert!(loaded.body().index().as_object().unwrap().is_empty());
    }
    assert_eq!(first, second);
}

#[test]
fn version_99_is_unsupported_on_both_paths() {
    let text = r#"{"format_version": 99}"#;
    let expected = LoadError::UnsupportedVersion { path: PATH.to_string(), version: 99 };
    assert_eq!(standard(text).unwrap_err(), expected);
    assert_eq!(accelerated(text).unwrap_err(), expected);
}

#[test]
fn every_supported_version_loads_under_its_own_tag() {
    for version in [28u32, 29, 30, 32, 33] {
        let text = minimal(version);
        let first = standard(&text).unwrap();
        let second = accelerated(&text).unwrap();
        assert_eq!(first.version(), version);
        assert_eq!(second.version(), version);
        assert_eq!(first.tag().number(), version);
        assert_eq!(first.body().format_version(), version);
        assert_eq!(first, second);
    }
    assert!(matches!(standard(&minimal(28)).unwrap(), VersionedCrate::V28(_)));
    assert!(matches!(standard(&minimal(29)).unwrap(), VersionedCrate::V29(_)));
    assert!(matches!(standard(&minimal(32)).unwrap(), VersionedCrate::V32(_)));
    assert!(matches!(accelerated(&minimal(33)).unwrap(), VersionedCrate::V33(_)));
}

#[test]
fn versions_outside_the_set_are_reported_with_their_number() {
    for version in [0u32, 1, 27, 31, 34, 99, 4294967295] {
        let text = minimal(version);
        let expected = LoadError::UnsupportedVersion { path: PATH.to_string(), version };
        assert_eq!(standard(&text).unwrap_err(), expected);
        assert_eq!(accelerated(&text).unwrap_err(), expected);
    }
}

#[test]
fn unsupported_version_wins_over_a_broken_body() {
    let text = r#"{"format_version": 31, "root": 7}"#;
    let expected = LoadError::UnsupportedVersion { path: PATH.to_string(), version: 31 };
    assert_eq!(standard(text).unwrap_err(), expected);
    assert_eq!(accelerated(text).unwrap_err(), expected);
}

#[test]
fn omitted_member_is_a_schema_mismatch_with_the_version() {
    let no_root = r#"{"format_version": 32, "index": {}}"#;
    let no_index = r#"{"format_version": 29, "root": "0:1"}"#;
    assert_eq!(mismatch(standard(no_root)), (32, CauseKind::Missing(Field::Root)));
    assert_eq!(mismatch(accelerated(no_root)), (32, CauseKind::Missing(Field::Root)));
    assert_eq!(mismatch(standard(no_index)), (29, CauseKind::Missing(Field::Index)));
    assert_eq!(mismatch(accelerated(no_index)), (29, CauseKind::Missing(Field::Index)));
}

#[test]
fn member_of_the_wrong_type_is_a_schema_mismatch() {
    let root_number = r#"{"format_version": 28, "root": 5, "index": {}}"#;
    let index_array = r#"{"format_version": 33, "root": "0:0", "index": []}"#;
    assert_eq!(mismatch(standard(root_number)), (28, CauseKind::Invalid(Field::Root)));
    assert_eq!(mismatch(accelerated(root_number)), (28, CauseKind::Invalid(Field::Root)));
    assert_eq!(mismatch(standard(index_array)), (33, CauseKind::Invalid(Field::Index)));
    assert_eq!(mismatch(accelerated(index_array)), (33, CauseKind::Invalid(Field::Index)));
}

#[test]
fn first_broken_rule_is_named() {
    let text = r#"{"format_version": 30, "root": null, "index": 1}"#;
    assert_eq!(mismatch(standard(text)), (30, CauseKind::Invalid(Field::Root)));
    assert_eq!(mismatch(accelerated(text)), (30, CauseKind::Invalid(Field::Root)));
}

#[test]
fn malformed_input_is_a_detection_error() {
    let samples = [
        r#"{"format_version": 30, "index": {}, "root": "0:0""#,
        r#"{"format_version": 30, "index": {}, "root": "0:0}"#,
        r#"{"format_version": 30, "index": {}}, "root": "0:0"}"#,
        r#"{"format_version" 30}"#,
        r#"{format_version: 30}"#,
        "",
        "{",
        "}",
    ];
    for text in samples {
        assert_eq!(detection_kind(standard(text)), CauseKind::Syntax, "{text}");
        assert_eq!(detection_kind(accelerated(text)), CauseKind::Syntax, "{text}");
    }
}

#[test]
fn syntax_cause_keeps_the_parsers_message() {
    match standard("{").unwrap_err() {
        LoadError::Detection { cause: Cause::Syntax(message), .. } => assert!(!message.is_empty()),
        other => panic!("unexpected {other:?}"),
    }
    match accelerated("{").unwrap_err() {
        LoadError::Detection { cause: Cause::Syntax(message), .. } => assert!(!message.is_empty()),
        other => panic!("unexpected {other:?}"),
    }
}

#[test]
fn document_without_a_usable_version_is_a_detection_error() {
    let samples = [
        r#"{"index": {}, "root": "0:0"}"#,
        r#"{"format_version": "30", "index": {}, "root": "0:0"}"#,
        r#"{"format_version": -30, "index": {}, "root": "0:0"}"#,
        r#"{"format_version": 30.5, "index": {}, "root": "0:0"}"#,
        r#"{"format_version": 30.0, "index": {}, "root": "0:0"}"#,
        r#"{"format_version": 3e1, "index": {}, "root": "0:0"}"#,
        r#"{"format_version": [30], "index": {}, "root": "0:0"}"#,
        r#"{"format_version": {"format_version": 30}}"#,
        r#"{"format_version": null}"#,
        r#"{"format_version": 4294967296}"#,
        r#"{"Format_Version": 30}"#,
        r#"[30]"#,
        r#"30"#,
        r#"null"#,
        r#""format_version""#,
    ];
    for text in samples {
        assert_eq!(detection_kind(standard(text)), CauseKind::NoVersion, "{text}");
        assert_eq!(detection_kind(accelerated(text)), CauseKind::NoVersion, "{text}");
    }
}

#[test]
fn version_number_beyond_64_bits_is_a_detection_error() {
    let text = r#"{"format_version": 18446744073709551616, "index": {}, "root": "0:0"}"#;
    assert!(matches!(standard(text), Err(LoadError::Detection { .. })));
    assert!(matches!(accelerated(text), Err(LoadError::Detection { .. })));
}

#[test]
fn largest_version_number_is_read_exactly() {
    let text = r#"{"format_version": 4294967295}"#;
    let expected = LoadError::UnsupportedVersion { path: PATH.to_string(), version: u32::MAX };
    assert_eq!(standard(text).unwrap_err(), expected);
    assert_eq!(accelerated(text).unwrap_err(), expected);
}

#[test]
fn unknown_members_are_kept_and_ignored_by_the_schema() {
    let text = r#"{"crate_version": "1.2.3", "root": "0:0", "paths": {"0:0": {"kind": "module"}},
        "index": {"0:0": {"name": "demo", "inner": {"items": ["0:1", "0:2"]}}},
        "includes_private": false, "format_version": 33}"#;
    let first = standard(text).unwrap();
    let second = accelerated(text).unwrap();
    assert_eq!(first, second);
    assert_eq!(first.version(), 33);
    assert_eq!(first.body().root(), "0:0");
    let index = first.body().index().as_object().unwrap();
    assert_eq!(index.len(), 1);
    assert_eq!(index["0:0"]["name"], serde_json::Value::String("demo".to_string()));
    assert_eq!(first.body().document()["crate_version"].as_str(), Some("1.2.3"));
    assert_eq!(second.body().document()["includes_private"].as_bool(), Some(false));
}

#[test]
fn loaders_agree_on_valid_documents() {
    let samples = [
        minimal(28),
        minimal(33),
        r#"{"root":"a\"b\\c","index":{"k":[1,2,{"x":null}]},"format_version":29}"#.to_string(),
        "  {\n\t\"format_version\" : 32 ,\n \"index\" : { } , \"root\" : \"\\u00e9\" }  ".to_string(),
        nested(20),
    ];
    for text in &samples {
        let first = standard(text).unwrap();
        let second = accelerated(text).unwrap();
        assert_eq!(first, second, "{text}");
    }
}

#[test]
fn escaped_root_identifier_is_decoded() {
    let text = r#"{"format_version": 30, "index": {}, "root": "a\"[{\\\u0041"}"#;
    assert_eq!(standard(text).unwrap().body().root(), "a\"[{\\A");
    assert_eq!(accelerated(text).unwrap().body().root(), "a\"[{\\A");
}

#[test]
fn invalid_text_is_an_encoding_error_on_the_standard_path() {
    let mut bytes = minimal(30).into_bytes();
    bytes[25] = 0xff;
    match load_rustdoc(PATH, &bytes).unwrap_err() {
        LoadError::Encoding { path, detail } => {
            assert_eq!(path, PATH);
            assert!(!detail.is_empty());
        }
        other => panic!("unexpected {other:?}"),
    }
    assert_eq!(detection_kind(simd_load_rustdoc(PATH, bytes)), CauseKind::Syntax);
}

#[test]
fn nesting_up_to_the_limit_loads_on_both_paths() {
    // The root object is one level, the array brings 126 more.
    let text = nested(126);
    let first = standard(&text).unwrap();
    let second = accelerated(&text).unwrap();
    assert_eq!(first, second);
    assert_eq!(first.version(), 30);
}

#[test]
fn nesting_beyond_the_limit_is_declined_on_both_paths() {
    let text = nested(127);
    assert_eq!(detection_kind(accelerated(&text)), CauseKind::TooDeep);
    assert_eq!(detection_kind(standard(&text)), CauseKind::Syntax);
    let deep = nested(100_000);
    assert_eq!(detection_kind(accelerated(&deep)), CauseKind::TooDeep);
    assert_eq!(detection_kind(standard(&deep)), CauseKind::Syntax);
}

#[test]
fn brackets_inside_strings_do_not_count_as_nesting() {
    let text = format!(
        "{{\"format_version\": 30, \"root\": \"{}\", \"index\": {{}}}}",
        "[{".repeat(500)
    );
    let first = standard(&text).unwrap();
    let second = accelerated(&text).unwrap();
    assert_eq!(first, second);
    assert_eq!(first.body().root().len(), 1000);
}

#[test]
fn body_that_declares_another_version_is_not_reinterpreted() {
    // The tape reads the first of two members of one name, the value built
    // from it keeps the last: the body then declares 28 under the tag 30.
    let text = r#"{"format_version": 30, "format_version": 28, "root": "0:0", "index": {}}"#;
    assert_eq!(mismatch(accelerated(text)), (30, CauseKind::Invalid(Field::FormatVersion)));
}

#[test]
fn errors_carry_the_path_that_was_given() {
    let error = load_rustdoc("some/where.json", b"{").unwrap_err();
    assert_eq!(error.path(), "some/where.json");
    let error = simd_load_rustdoc("else/where.json", b"{\"format_version\": 5}".to_vec()).unwrap_err();
    assert_eq!(error.path(), "else/where.json");
    assert_eq!(error.version(), Some(5));
}
