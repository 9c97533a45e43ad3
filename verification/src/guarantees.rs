//! What holds of the loaders on every input, stated over their outcomes and
//! proved from the definitions of those outcomes.

use vstd::prelude::*;
use vstd::utf8::{decode_utf8, valid_utf8};
use crate::error::{CauseKind, ErrorView, Field};
use crate::json::{text_json, Json};
use crate::nesting::{nesting_depth, MAX_NESTING};
use crate::parser::{accelerated_outcome, detection, dispatch, standard_outcome};
use crate::schema::{conforms, declared_version, member_of, violation};
use crate::tape::{bytes_tape, tape_json, tape_view};
use crate::version::supported;
use crate::versioned::Tagged;

verus! {

/// The smallest document of a version: the declared version, a root
/// identifier and an empty index, nothing else.
pub open spec fn minimal_document(version: u32, root: Seq<char>) -> Json {
    Json::Object(
        Map::empty().insert(Field::FormatVersion.spec_name(), Json::Integer(version as int)).insert(
            Field::Index.spec_name(),
            Json::Object(Map::empty()),
        ).insert(Field::Root.spec_name(), Json::String(root)),
    )
}

/// The three members that the loaders read have three different names.
pub proof fn lemma_field_names_differ(a: Field, b: Field)
    ensures
        a.spec_name() == b.spec_name() <==> a == b,
{
    reveal_strlit("format_version");
    reveal_strlit("root");
    reveal_strlit("index");
    assert(Field::FormatVersion.spec_name().len() == 14);
    assert(Field::Root.spec_name().len() == 4);
    assert(Field::Index.spec_name().len() == 5);
}

/// The smallest document of a version declares that version and conforms to
/// its schema, whatever the version and the root identifier.
pub proof fn lemma_minimal_document_conforms(version: u32, root: Seq<char>)
    ensures
        declared_version(minimal_document(version, root)) == Some(version),
        conforms(minimal_document(version, root), version),
{
    lemma_field_names_differ(Field::FormatVersion, Field::Root);
    lemma_field_names_differ(Field::FormatVersion, Field::Index);
    lemma_field_names_differ(Field::Root, Field::Index);
}

/// Standard loader: for every supported version, a text that parses into
/// the smallest document of that version loads, tagged with exactly that
/// version.
pub proof fn lemma_standard_loads_minimal(path: Seq<char>, bytes: Seq<u8>, version: u32, root: Seq<char>)
    requires
        supported(version),
        valid_utf8(bytes),
        text_json(decode_utf8(bytes)) == Some(minimal_document(version, root)),
    ensures
        standard_outcome(path, bytes) == Ok::<Tagged, ErrorView>(
            Tagged { version, document: minimal_document(version, root) },
        ),
{
    lemma_minimal_document_conforms(version, root);
}

/// A document that conforms to the schema of a version declares that
/// version and has a root identifier and an index.
pub proof fn lemma_conforming_document(doc: Json, version: u32)
    requires
        conforms(doc, version),
    ensures
        declared_version(doc) == Some(version),
        member_of(doc, Field::Root) matches Some(root) && root is String,
        member_of(doc, Field::Index) matches Some(index) && index is Object,
{
}

/// Standard loader: a document that declares a supported version and
/// conforms to its schema loads, and the result is tagged with exactly that
/// version and wraps that document.
pub proof fn lemma_standard_loads_supported(path: Seq<char>, bytes: Seq<u8>, doc: Json, version: u32)
    requires
        valid_utf8(bytes),
        text_json(decode_utf8(bytes)) == Some(doc),
        supported(version),
        conforms(doc, version),
    ensures
        standard_outcome(path, bytes) == Ok::<Tagged, ErrorView>(Tagged { version, document: doc }),
{
}

/// Accelerated loader: a tape whose root declares a supported version and
/// that deserializes into a document conforming to that version's schema
/// loads, and the result is tagged with exactly that version.
pub proof fn lemma_accelerated_loads_supported(
    path: Seq<char>,
    bytes: Seq<u8>,
    tape: simd_json::Tape<'static>,
    doc: Json,
    version: u32,
)
    requires
        nesting_depth(bytes) <= MAX_NESTING,
        bytes_tape(bytes) == Some(tape),
        declared_version(tape_view(tape)) == Some(version),
        tape_json(tape) == Some(doc),
        supported(version),
        conforms(doc, version),
    ensures
        accelerated_outcome(path, bytes) == Ok::<Tagged, ErrorView>(
            Tagged { version, document: doc },
        ),
{
}

/// Standard loader: a document that declares a version outside the
/// supported set is turned down as unsupported, with exactly the number it
/// declares, whatever else it holds.
pub proof fn lemma_standard_reports_unsupported(
    path: Seq<char>,
    bytes: Seq<u8>,
    doc: Json,
    version: u32,
)
    requires
        valid_utf8(bytes),
        text_json(decode_utf8(bytes)) == Some(doc),
        declared_version(doc) == Some(version),
        !supported(version),
    ensures
        standard_outcome(path, bytes) == Err::<Tagged, ErrorView>(
            ErrorView::UnsupportedVersion { path, version },
        ),
{
}

/// Accelerated loader: a tape whose root declares a version outside the
/// supported set is turned down as unsupported, with exactly that number;
/// the tape is not deserialized.
pub proof fn lemma_accelerated_reports_unsupported(
    path: Seq<char>,
    bytes: Seq<u8>,
    tape: simd_json::Tape<'static>,
    version: u32,
)
    requires
        nesting_depth(bytes) <= MAX_NESTING,
        bytes_tape(bytes) == Some(tape),
        declared_version(tape_view(tape)) == Some(version),
        !supported(version),
    ensures
        accelerated_outcome(path, bytes) == Err::<Tagged, ErrorView>(
            ErrorView::UnsupportedVersion { path, version },
        ),
{
}

/// Standard loader: a document that declares a supported version and breaks
/// that version's schema is a schema mismatch that carries the version and
/// names the rule broken first. It is never read as a document of another
/// version.
pub proof fn lemma_standard_reports_mismatch(path: Seq<char>, bytes: Seq<u8>, doc: Json, version: u32)
    requires
        valid_utf8(bytes),
        text_json(decode_utf8(bytes)) == Some(doc),
        declared_version(doc) == Some(version),
        supported(version),
        !conforms(doc, version),
    ensures
        violation(doc, version) matches Some(cause) && standard_outcome(path, bytes) == Err::<
            Tagged,
            ErrorView,
        >(ErrorView::SchemaMismatch { path, version, cause }),
{
}

/// A document that declares a version and lacks the root identifier or the
/// index does not conform to the schema of that version.
pub proof fn lemma_omitted_member_breaks_schema(doc: Json, version: u32, field: Field)
    requires
        declared_version(doc) == Some(version),
        field != Field::FormatVersion,
        member_of(doc, field) is None,
    ensures
        !conforms(doc, version),
        field == Field::Root ==> violation(doc, version) == Some(CauseKind::Missing(Field::Root)),
{
}

/// Standard loader: a document that declares a supported version and omits
/// a member that the schema requires is a schema mismatch that carries the
/// path and that version.
pub proof fn lemma_standard_reports_omission(
    path: Seq<char>,
    bytes: Seq<u8>,
    doc: Json,
    version: u32,
    field: Field,
)
    requires
        valid_utf8(bytes),
        text_json(decode_utf8(bytes)) == Some(doc),
        declared_version(doc) == Some(version),
        supported(version),
        field != Field::FormatVersion,
        member_of(doc, field) is None,
    ensures
        standard_outcome(path, bytes) matches Err(
            ErrorView::SchemaMismatch { path: reported, version: carried, .. },
        ) && reported == path && carried == version,
{
}

/// Accelerated loader: a tape whose root declares a supported version and
/// whose document breaks that version's schema, or cannot be deserialized, is
/// a schema mismatch that carries the version.
pub proof fn lemma_accelerated_reports_mismatch(
    path: Seq<char>,
    bytes: Seq<u8>,
    tape: simd_json::Tape<'static>,
    version: u32,
)
    requires
        nesting_depth(bytes) <= MAX_NESTING,
        bytes_tape(bytes) == Some(tape),
        declared_version(tape_view(tape)) == Some(version),
        supported(version),
        tape_json(tape) matches Some(doc) ==> !conforms(doc, version),
    ensures
        accelerated_outcome(path, bytes) matches Err(
            ErrorView::SchemaMismatch { path: reported, version: carried, .. },
        ) && reported == path && carried == version,
{
}

/// Standard loader: text that the parser does not accept as JSON is a
/// detection error.
pub proof fn lemma_standard_rejects_malformed(path: Seq<char>, bytes: Seq<u8>)
    requires
        valid_utf8(bytes),
        text_json(decode_utf8(bytes)) is None,
    ensures
        standard_outcome(path, bytes) == Err::<Tagged, ErrorView>(
            ErrorView::Detection { path, cause: CauseKind::Syntax },
        ),
{
}

/// Accelerated loader: bytes from which no tape can be built are a
/// detection error.
pub proof fn lemma_accelerated_rejects_malformed(path: Seq<char>, bytes: Seq<u8>)
    requires
        bytes_tape(bytes) is None,
    ensures
        accelerated_outcome(path, bytes) matches Err(ErrorView::Detection { path: reported, .. })
            && reported == path,
{
}

/// The two loaders return the same for the same bytes wherever the two
/// parsers agree on them: the text parses into a document, the tape shows the
/// same declared version, and the tape deserializes into the same document.
/// That the parsers do agree on a given input is theirs to keep, not this
/// crate's to prove.
pub proof fn lemma_loaders_agree(path: Seq<char>, bytes: Seq<u8>, tape: simd_json::Tape<'static>, doc: Json)
    requires
        valid_utf8(bytes),
        nesting_depth(bytes) <= MAX_NESTING,
        text_json(decode_utf8(bytes)) == Some(doc),
        bytes_tape(bytes) == Some(tape),
        declared_version(tape_view(tape)) == declared_version(doc),
        tape_json(tape) == Some(doc),
    ensures
        standard_outcome(path, bytes) == accelerated_outcome(path, bytes),
{
}

/// The tag of a loaded document is the version that was detected, on either
/// path.
pub proof fn lemma_tag_is_detected_version(path: Seq<char>, bytes: Seq<u8>)
    ensures
        standard_outcome(path, bytes) matches Ok(tagged) ==> detection(
            path,
            text_json(decode_utf8(bytes)),
        ) == Ok::<u32, ErrorView>(tagged.version),
        accelerated_outcome(path, bytes) matches Ok(tagged) ==> bytes_tape(bytes) matches Some(tape)
            && detection(path, Some(tape_view(tape))) == Ok::<u32, ErrorView>(tagged.version),
{
}

/// A version outside the supported set is turned down whatever the body
/// holds: the body plays no part, parsed or not.
pub proof fn lemma_unsupported_ignores_body(
    path: Seq<char>,
    version: u32,
    one: Option<Json>,
    other: Option<Json>,
)
    requires
        !supported(version),
    ensures
        dispatch(path, version, one) == dispatch(path, version, other),
        dispatch(path, version, one) == Err::<Tagged, ErrorView>(
            ErrorView::UnsupportedVersion { path, version },
        ),
{
}

/// Whatever a loader returns is tagged with a supported version, and an
/// error of either loader is about the path that was given.
pub proof fn lemma_outcomes_are_sound(path: Seq<char>, bytes: Seq<u8>)
    ensures
        standard_outcome(path, bytes) matches Ok(tagged) ==> supported(tagged.version) && conforms(
            tagged.document,
            tagged.version,
        ),
        accelerated_outcome(path, bytes) matches Ok(tagged) ==> supported(tagged.version)
            && conforms(tagged.document, tagged.version),
        standard_outcome(path, bytes) matches Err(error) ==> error.path() == path,
        accelerated_outcome(path, bytes) matches Err(error) ==> error.path() == path,
{
}

} // verus!
