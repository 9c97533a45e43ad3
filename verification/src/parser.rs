//! The two loaders. Both read the declared version first, look it up among
//! the supported versions, check the document against that version's schema
//! and tag the result. The standard loader parses the text twice, once to
//! detect and once to load; the accelerated loader builds one tape and reads
//! it for both.

use vstd::prelude::*;
use vstd::pervasive::unreached;
use vstd::utf8::{decode_utf8, encode_utf8_decode_utf8, valid_utf8};
use crate::error::{Cause, CauseKind, ErrorView, Field, LoadError};
use crate::json::{parse_text, text_json, Json};
use crate::nesting::{measure_nesting, nesting_depth, MAX_NESTING};
use crate::schema::{declared_version, read_declared_version, violation, Crate};
use crate::tape::{
    build_tape, built_by_parser, built_from_shallow, bytes_tape, tape_document, tape_json,
    tape_member_u32, tape_view,
};
use crate::text::text_of;
use crate::version::{is_supported, supported};
use crate::versioned::{Tagged, VersionedCrate};

verus! {

/// A result that is this error, as far as the view of errors tells.
pub open spec fn fails_with<T>(result: Result<T, LoadError>, error: ErrorView) -> bool {
    result matches Err(found) && found@ == error
}

/// What detection makes of a parsed document, or of the parser's refusal:
/// the declared version, or the error that says why there is none.
pub open spec fn detection(path: Seq<char>, parsed: Option<Json>) -> Result<u32, ErrorView> {
    match parsed {
        None => Err(ErrorView::Detection { path, cause: CauseKind::Syntax }),
        Some(doc) => match declared_version(doc) {
            None => Err(ErrorView::Detection { path, cause: CauseKind::NoVersion }),
            Some(version) => Ok(version),
        },
    }
}

/// What the check against the schema of `version` makes of a parsed document,
/// or of the parser's refusal: the document, or the mismatch with its cause.
pub open spec fn typed_body(path: Seq<char>, version: u32, parsed: Option<Json>) -> Result<
    Json,
    ErrorView,
> {
    match parsed {
        None => Err(ErrorView::SchemaMismatch { path, version, cause: CauseKind::Syntax }),
        Some(doc) => match violation(doc, version) {
            Some(cause) => Err(ErrorView::SchemaMismatch { path, version, cause }),
            None => Ok(doc),
        },
    }
}

/// What becomes of a document once its version is detected. A version
/// outside the supported set is reported as such and nothing is parsed under
/// it; a supported one decides the schema, and the tag of the result.
pub open spec fn dispatch(path: Seq<char>, version: u32, parsed: Option<Json>) -> Result<
    Tagged,
    ErrorView,
> {
    if !supported(version) {
        Err(ErrorView::UnsupportedVersion { path, version })
    } else {
        match typed_body(path, version, parsed) {
            Ok(document) => Ok(Tagged { version, document }),
            Err(error) => Err(error),
        }
    }
}

/// What the standard loader returns for the bytes of a file.
pub open spec fn standard_outcome(path: Seq<char>, bytes: Seq<u8>) -> Result<Tagged, ErrorView> {
    if !valid_utf8(bytes) {
        Err(ErrorView::Encoding { path })
    } else {
        let parsed = text_json(decode_utf8(bytes));
        match detection(path, parsed) {
            Err(error) => Err(error),
            Ok(version) => dispatch(path, version, parsed),
        }
    }
}

/// What the accelerated loader returns for the bytes of a file.
pub open spec fn accelerated_outcome(path: Seq<char>, bytes: Seq<u8>) -> Result<Tagged, ErrorView> {
    if nesting_depth(bytes) > MAX_NESTING {
        Err(ErrorView::Detection { path, cause: CauseKind::TooDeep })
    } else {
        match bytes_tape(bytes) {
            None => Err(ErrorView::Detection { path, cause: CauseKind::Syntax }),
            Some(tape) => match detection(path, Some(tape_view(tape))) {
                Err(error) => Err(error),
                Ok(version) => dispatch(path, version, tape_json(tape)),
            },
        }
    }
}

/// Reads the declared version from the text of a document. The whole text
/// has to be JSON, though only one member is read.
pub fn detect_rustdoc_format_version(path: &str, file_data: &str) -> (detected: Result<
    u32,
    LoadError,
>)
    ensures
        match detection(path@, text_json(file_data@)) {
            Ok(version) => detected matches Ok(found) && found == version,
            Err(error) => fails_with(detected, error),
        },
{
    match parse_text(file_data) {
        Err(error) => Err(
            LoadError::Detection { path: path.to_owned(), cause: Cause::Syntax(error.to_string()) },
        ),
        Ok(document) => match read_declared_version(&document) {
            None => Err(LoadError::Detection { path: path.to_owned(), cause: Cause::NoVersion }),
            Some(version) => Ok(version),
        },
    }
}

/// Reads the declared version from a tape, without going back to the text.
pub(crate) fn simd_detect_rustdoc_format_version(path: &str, tape: &simd_json::Tape<'_>) -> (detected:
    Result<u32, LoadError>)
    requires
        built_by_parser(*tape),
    ensures
        match detection(path@, Some(tape_view(*tape))) {
            Ok(version) => detected matches Ok(found) && found == version,
            Err(error) => fails_with(detected, error),
        },
{
    match tape_member_u32(tape, Field::FormatVersion.name()) {
        None => Err(LoadError::Detection { path: path.to_owned(), cause: Cause::NoVersion }),
        Some(version) => Ok(version),
    }
}

/// Parses the text of a document and checks it against the schema of
/// `format_version`.
pub fn parse_or_report_error(path: &str, file_data: &str, format_version: u32) -> (parsed: Result<
    Crate,
    LoadError,
>)
    ensures
        match typed_body(path@, format_version, text_json(file_data@)) {
            Ok(document) => parsed matches Ok(body) && body@ == document
                && body.spec_format_version() == format_version,
            Err(error) => fails_with(parsed, error),
        },
{
    match parse_text(file_data) {
        Err(error) => Err(
            LoadError::SchemaMismatch {
                path: path.to_owned(),
                version: format_version,
                cause: Cause::Syntax(error.to_string()),
            },
        ),
        Ok(document) => report_mismatch(path, format_version, Crate::from_document(document, format_version)),
    }
}

/// Turns the tape into a document and checks it against the schema of
/// `format_version`.
pub(crate) fn simd_parse_or_report_error(
    path: &str,
    tape: simd_json::Tape<'_>,
    format_version: u32,
) -> (parsed: Result<Crate, LoadError>)
    requires
        built_from_shallow(tape),
    ensures
        match typed_body(path@, format_version, tape_json(tape)) {
            Ok(document) => parsed matches Ok(body) && body@ == document
                && body.spec_format_version() == format_version,
            Err(error) => fails_with(parsed, error),
        },
{
    match tape_document(tape) {
        Err(error) => Err(
            LoadError::SchemaMismatch {
                path: path.to_owned(),
                version: format_version,
                cause: Cause::Syntax(error.to_string()),
            },
        ),
        Ok(document) => report_mismatch(path, format_version, Crate::from_document(document, format_version)),
    }
}

/// Reports a broken rule of the schema with the path and the version.
fn report_mismatch(path: &str, format_version: u32, checked: Result<Crate, Cause>) -> (reported:
    Result<Crate, LoadError>)
    ensures
        match checked {
            Ok(body) => reported matches Ok(same) && same == body,
            Err(cause) => fails_with(
                reported,
                ErrorView::SchemaMismatch { path: path@, version: format_version, cause: cause@ },
            ),
        },
{
    match checked {
        Ok(body) => Ok(body),
        Err(cause) => Err(
            LoadError::SchemaMismatch { path: path.to_owned(), version: format_version, cause },
        ),
    }
}

/// Puts the body under its tag, after the version was found to be supported.
fn tag_body(body: Crate) -> (document: VersionedCrate)
    requires
        supported(body.spec_format_version()),
    ensures
        document.wf(),
        document@ == (Tagged { version: body.spec_format_version(), document: body@ }),
{
    match VersionedCrate::from_body(body) {
        Some(document) => document,
        None => unreached(),
    }
}

/// The standard loader: takes the bytes of a file as text, detects the
/// declared version, and parses the text again under the schema of that
/// version.
pub fn load_rustdoc(path: &str, file_data: &[u8]) -> (loaded: Result<VersionedCrate, LoadError>)
    ensures
        match standard_outcome(path@, file_data@) {
            Ok(tagged) => loaded matches Ok(document) && document@ == tagged && document.wf(),
            Err(error) => fails_with(loaded, error),
        },
{
    let text = match text_of(file_data) {
        Ok(text) => text,
        Err(error) => {
            return Err(LoadError::Encoding { path: path.to_owned(), detail: error.to_string() });
        },
    };
    proof {
        encode_utf8_decode_utf8(text@);
    }
    let format_version = match detect_rustdoc_format_version(path, text) {
        Ok(version) => version,
        Err(error) => {
            return Err(error);
        },
    };
    if !is_supported(format_version) {
        return Err(LoadError::UnsupportedVersion { path: path.to_owned(), version: format_version });
    }
    match parse_or_report_error(path, text, format_version) {
        Ok(body) => Ok(tag_body(body)),
        Err(error) => Err(error),
    }
}

/// The accelerated loader: builds one tape from the bytes of a file and
/// reads both the declared version and the document from it. The buffer is
/// consumed: building the tape rewrites it.
pub fn simd_load_rustdoc(path: &str, file_data: Vec<u8>) -> (loaded: Result<VersionedCrate, LoadError>)
    ensures
        match accelerated_outcome(path@, file_data@) {
            Ok(tagged) => loaded matches Ok(document) && document@ == tagged && document.wf(),
            Err(error) => fails_with(loaded, error),
        },
{
    let mut file_data = file_data;
    if measure_nesting(file_data.as_slice()) > MAX_NESTING {
        return Err(LoadError::Detection { path: path.to_owned(), cause: Cause::TooDeep });
    }
    let tape = match build_tape(&mut file_data) {
        Ok(tape) => tape,
        Err(error) => {
            return Err(
                LoadError::Detection { path: path.to_owned(), cause: Cause::Syntax(error.to_string()) },
            );
        },
    };
    let format_version = match simd_detect_rustdoc_format_version(path, &tape) {
        Ok(version) => version,
        Err(error) => {
            return Err(error);
        },
    };
    if !is_supported(format_version) {
        return Err(LoadError::UnsupportedVersion { path: path.to_owned(), version: format_version });
    }
    match simd_parse_or_report_error(path, tape, format_version) {
        Ok(body) => Ok(tag_body(body)),
        Err(error) => Err(error),
    }
}

} // verus!
