//! The value that a load hands out: a document body under the tag of the
//! version whose schema it was checked against.

use vstd::prelude::*;
use vstd::pervasive::unreached;
use crate::json::Json;
use crate::schema::Crate;
use crate::version::{supported, SupportedVersion};

verus! {

/// A loaded document: one variant for each supported version.
#[derive(Debug, PartialEq, Eq)]
pub enum VersionedCrate {
    V28(Crate),
    V29(Crate),
    V30(Crate),
    V32(Crate),
    V33(Crate),
}

/// A loaded document as contracts see it.
pub struct Tagged {
    /// The number of the version that the variant names.
    pub version: u32,
    /// The document that the variant wraps.
    pub document: Json,
}

impl View for VersionedCrate {
    type V = Tagged;

    open spec fn view(&self) -> Tagged {
        Tagged { version: self.spec_tag().spec_number(), document: self.spec_body()@ }
    }
}

impl VersionedCrate {
    /// The version that the variant names.
    pub open spec fn spec_tag(&self) -> SupportedVersion {
        match self {
            VersionedCrate::V28(_) => SupportedVersion::V28,
            VersionedCrate::V29(_) => SupportedVersion::V29,
            VersionedCrate::V30(_) => SupportedVersion::V30,
            VersionedCrate::V32(_) => SupportedVersion::V32,
            VersionedCrate::V33(_) => SupportedVersion::V33,
        }
    }

    /// The body that the variant wraps.
    pub open spec fn spec_body(&self) -> Crate {
        match self {
            VersionedCrate::V28(body) => *body,
            VersionedCrate::V29(body) => *body,
            VersionedCrate::V30(body) => *body,
            VersionedCrate::V32(body) => *body,
            VersionedCrate::V33(body) => *body,
        }
    }

    /// The tag is the version under whose schema the body was accepted: no
    /// variant wraps a body that was checked under another version's rules.
    pub open spec fn wf(&self) -> bool {
        self.spec_body().spec_format_version() == self.spec_tag().spec_number()
    }

    /// Puts a body under the tag of the version whose schema it was accepted
    /// under. There is a tag exactly for the supported versions.
    pub fn from_body(body: Crate) -> (tagged: Option<VersionedCrate>)
        ensures
            tagged is Some <==> supported(body.spec_format_version()),
            tagged matches Some(document) ==> document.wf() && document.spec_body() == body,
    {
        match SupportedVersion::from_number(body.format_version()) {
            None => None,
            Some(SupportedVersion::V28) => Some(VersionedCrate::V28(body)),
            Some(SupportedVersion::V29) => Some(VersionedCrate::V29(body)),
            Some(SupportedVersion::V30) => Some(VersionedCrate::V30(body)),
            Some(SupportedVersion::V32) => Some(VersionedCrate::V32(body)),
            Some(SupportedVersion::V33) => Some(VersionedCrate::V33(body)),
        }
    }

    /// The version that the variant names.
    pub fn tag(&self) -> (tag: SupportedVersion)
        ensures
            tag == self.spec_tag(),
    {
        match self {
            VersionedCrate::V28(_) => SupportedVersion::V28,
            VersionedCrate::V29(_) => SupportedVersion::V29,
            VersionedCrate::V30(_) => SupportedVersion::V30,
            VersionedCrate::V32(_) => SupportedVersion::V32,
            VersionedCrate::V33(_) => SupportedVersion::V33,
        }
    }

    /// The number of the version that the variant names.
    pub fn version(&self) -> (version: u32)
        ensures
            version == self@.version,
            supported(version),
    {
        self.tag().number()
    }

    /// The body that the variant wraps.
    pub fn body(&self) -> (body: &Crate)
        ensures
            *body == self.spec_body(),
    {
        match self {
            VersionedCrate::V28(body) => body,
            VersionedCrate::V29(body) => body,
            VersionedCrate::V30(body) => body,
            VersionedCrate::V32(body) => body,
            VersionedCrate::V33(body) => body,
        }
    }
}

} // verus!
