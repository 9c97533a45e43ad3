//! What a document has to hold to count as a document of a format version,
//! and the typed value that a conforming document becomes.

use vstd::prelude::*;
use vstd::pervasive::unreached;
use crate::error::{Cause, CauseKind, Field};
use crate::json::{
    as_string, as_unsigned, is_object, json_member, json_unsigned, json_view, member, Json,
};

verus! {

/// The member of the root that `field` names, where the document is an
/// object that has one.
pub open spec fn member_of(doc: Json, field: Field) -> Option<Json> {
    json_member(doc, field.spec_name())
}

/// The version that a document declares: its `format_version`, where that
/// member is an unsigned integer of 32 bits. A document without such a member
/// declares none; nothing stands in for it.
pub open spec fn declared_version(doc: Json) -> Option<u32> {
    match member_of(doc, Field::FormatVersion) {
        Some(value) => match json_unsigned(value, u32::MAX as int) {
            Some(number) => Some(number as u32),
            None => None,
        },
        None => None,
    }
}

/// The first rule of the schema of `version` that a document breaks, if it
/// breaks one. The rules, in the order in which they are tried: the root
/// declares `version`; it has a `root` that is a string; it has an `index`
/// that is an object. Members that no rule names are free.
pub open spec fn violation(doc: Json, version: u32) -> Option<CauseKind> {
    if member_of(doc, Field::FormatVersion) is None {
        Some(CauseKind::Missing(Field::FormatVersion))
    } else if declared_version(doc) != Some(version) {
        Some(CauseKind::Invalid(Field::FormatVersion))
    } else if member_of(doc, Field::Root) is None {
        Some(CauseKind::Missing(Field::Root))
    } else if !(member_of(doc, Field::Root)->0 is String) {
        Some(CauseKind::Invalid(Field::Root))
    } else if member_of(doc, Field::Index) is None {
        Some(CauseKind::Missing(Field::Index))
    } else if !(member_of(doc, Field::Index)->0 is Object) {
        Some(CauseKind::Invalid(Field::Index))
    } else {
        None
    }
}

/// Whether a document is a document of `version`.
pub open spec fn conforms(doc: Json, version: u32) -> bool {
    violation(doc, version) is None
}

/// The member that `field` names.
fn field_of<'a>(document: &'a serde_json::Value, field: Field) -> (found: Option<&'a serde_json::Value>)
    ensures
        match found {
            Some(value) => member_of(json_view(*document), field) == Some(json_view(*value)),
            None => member_of(json_view(*document), field) is None,
        },
{
    member(document, field.name())
}

/// Reads the version that a document declares.
pub fn read_declared_version(document: &serde_json::Value) -> (version: Option<u32>)
    ensures
        version == declared_version(json_view(*document)),
{
    match field_of(document, Field::FormatVersion) {
        None => None,
        Some(value) => match as_unsigned(value) {
            None => None,
            Some(number) => if number <= 0xffff_ffff {
                Some(number as u32)
            } else {
                None
            },
        },
    }
}

/// The body of a rustdoc JSON document that conforms to the schema of the
/// version it declares.
///
/// The value keeps the whole document and hands out the members that the
/// schema guarantees.
#[derive(Debug, PartialEq, Eq)]
pub struct Crate {
    document: serde_json::Value,
    format_version: u32,
}

impl View for Crate {
    type V = Json;

    closed spec fn view(&self) -> Json {
        json_view(self.document)
    }
}

impl Crate {
    #[verifier::type_invariant]
    spec fn conforming(self) -> bool {
        conforms(json_view(self.document), self.format_version)
    }

    /// The version under whose schema the body was accepted.
    pub closed spec fn spec_format_version(&self) -> u32 {
        self.format_version
    }

    /// Checks a parsed document against the schema of `version`. A document
    /// that conforms becomes the body; for any other the rule that it breaks
    /// first is named.
    pub fn from_document(document: serde_json::Value, version: u32) -> (checked: Result<Crate, Cause>)
        ensures
            match checked {
                Ok(body) => conforms(json_view(document), version) && body@ == json_view(document)
                    && body.spec_format_version() == version,
                Err(cause) => violation(json_view(document), version) == Some(cause@),
            },
    {
        match field_of(&document, Field::FormatVersion) {
            None => {
                return Err(Cause::Missing(Field::FormatVersion));
            },
            Some(_) => {},
        }
        if read_declared_version(&document) != Some(version) {
            return Err(Cause::Invalid(Field::FormatVersion));
        }
        match field_of(&document, Field::Root) {
            None => {
                return Err(Cause::Missing(Field::Root));
            },
            Some(root) => {
                if as_string(root).is_none() {
                    return Err(Cause::Invalid(Field::Root));
                }
            },
        }
        match field_of(&document, Field::Index) {
            None => {
                return Err(Cause::Missing(Field::Index));
            },
            Some(index) => {
                if !is_object(index) {
                    return Err(Cause::Invalid(Field::Index));
                }
            },
        }
        Ok(Crate { document, format_version: version })
    }

    /// The version under whose schema the body was accepted. The document
    /// declares that version and conforms to its schema.
    pub fn format_version(&self) -> (version: u32)
        ensures
            version == self.spec_format_version(),
            conforms(self@, version),
    {
        proof {
            use_type_invariant(self);
        }
        self.format_version
    }

    /// The identifier of the root item.
    pub fn root(&self) -> (root: &str)
        ensures
            member_of(self@, Field::Root) == Some(Json::String(root@)),
    {
        proof {
            use_type_invariant(self);
        }
        match field_of(&self.document, Field::Root) {
            Some(value) => match as_string(value) {
                Some(root) => root,
                None => unreached(),
            },
            None => unreached(),
        }
    }

    /// The table of items: a JSON object.
    pub fn index(&self) -> (index: &serde_json::Value)
        ensures
            member_of(self@, Field::Index) == Some(json_view(*index)),
            json_view(*index) is Object,
    {
        proof {
            use_type_invariant(self);
        }
        match field_of(&self.document, Field::Index) {
            Some(index) => index,
            None => unreached(),
        }
    }

    /// The whole document, with the members that the schema does not name.
    pub fn document(&self) -> (document: &serde_json::Value)
        ensures
            json_view(*document) == self@,
    {
        &self.document
    }
}

} // verus!
