//! The errors of a load: one kind per step that can fail, each with the path
//! of the document and, once it is known, the version that was detected.

use vstd::prelude::*;
use vstd::string::StringExecFns;

verus! {

/// A member of the document root that the loaders read.
#[derive(Clone, Copy, Debug, PartialEq, Eq, Structural)]
pub enum Field {
    FormatVersion,
    Root,
    Index,
}

impl Field {
    /// The member's name in the document.
    pub open spec fn spec_name(self) -> Seq<char> {
        match self {
            Field::FormatVersion => "format_version"@,
            Field::Root => "root"@,
            Field::Index => "index"@,
        }
    }

    /// The member's name in the document.
    pub fn name(self) -> (name: &'static str)
        ensures
            name@ == self.spec_name(),
    {
        match self {
            Field::FormatVersion => "format_version",
            Field::Root => "root",
            Field::Index => "index",
        }
    }
}

/// Why a document was turned down, without the parser's wording.
#[derive(Clone, Copy, Debug, PartialEq, Eq, Structural)]
pub enum CauseKind {
    /// The parser did not accept the input as JSON.
    Syntax,
    /// Arrays and objects are nested more deeply than the loaders follow.
    TooDeep,
    /// The root has no `format_version` that is an unsigned 32-bit integer.
    NoVersion,
    /// The root is no object, or it lacks this member.
    Missing(Field),
    /// The member is there, but its value is not what the schema asks for.
    Invalid(Field),
}

/// Why a document was turned down.
#[derive(Debug, PartialEq, Eq)]
pub enum Cause {
    /// The parser did not accept the input as JSON; its message is kept.
    Syntax(String),
    /// Arrays and objects are nested more deeply than the loaders follow.
    TooDeep,
    /// The root has no `format_version` that is an unsigned 32-bit integer.
    NoVersion,
    /// The root is no object, or it lacks this member.
    Missing(Field),
    /// The member is there, but its value is not what the schema asks for.
    Invalid(Field),
}

impl View for Cause {
    type V = CauseKind;

    open spec fn view(&self) -> CauseKind {
        match self {
            Cause::Syntax(_) => CauseKind::Syntax,
            Cause::TooDeep => CauseKind::TooDeep,
            Cause::NoVersion => CauseKind::NoVersion,
            Cause::Missing(field) => CauseKind::Missing(*field),
            Cause::Invalid(field) => CauseKind::Invalid(*field),
        }
    }
}

impl Cause {
    /// The cause without the parser's wording.
    pub fn kind(&self) -> (kind: CauseKind)
        ensures
            kind == self@,
    {
        match self {
            Cause::Syntax(_) => CauseKind::Syntax,
            Cause::TooDeep => CauseKind::TooDeep,
            Cause::NoVersion => CauseKind::NoVersion,
            Cause::Missing(field) => CauseKind::Missing(*field),
            Cause::Invalid(field) => CauseKind::Invalid(*field),
        }
    }
}

/// The step of reading a file at which the file system failed.
#[derive(Clone, Copy, Debug, PartialEq, Eq, Structural)]
pub enum IoStep {
    Open,
    Read,
}

/// The error of a load. Every kind carries the path of the document.
#[derive(Debug, PartialEq, Eq)]
pub enum LoadError {
    /// The file could not be opened or read.
    Io { path: String, step: IoStep, detail: String },
    /// The bytes of the file are not valid text.
    Encoding { path: String, detail: String },
    /// No format version could be read from the document.
    Detection { path: String, cause: Cause },
    /// The document declares a version that this crate does not understand.
    UnsupportedVersion { path: String, version: u32 },
    /// The document declares a supported version and breaks its schema.
    SchemaMismatch { path: String, version: u32, cause: Cause },
}

/// A `LoadError` as contracts see it: the kind, the path, the version and
/// the kind of the cause. The wording of messages that come from a parser or
/// from the system is carried along and is no part of the view.
pub enum ErrorView {
    Io { path: Seq<char>, step: IoStep },
    Encoding { path: Seq<char> },
    Detection { path: Seq<char>, cause: CauseKind },
    UnsupportedVersion { path: Seq<char>, version: u32 },
    SchemaMismatch { path: Seq<char>, version: u32, cause: CauseKind },
}

impl ErrorView {
    /// The path of the document that the error is about.
    pub open spec fn path(self) -> Seq<char> {
        match self {
            ErrorView::Io { path, .. } => path,
            ErrorView::Encoding { path } => path,
            ErrorView::Detection { path, .. } => path,
            ErrorView::UnsupportedVersion { path, .. } => path,
            ErrorView::SchemaMismatch { path, .. } => path,
        }
    }

    /// The detected version, for the kinds that arise after detection.
    pub open spec fn version(self) -> Option<u32> {
        match self {
            ErrorView::UnsupportedVersion { version, .. } => Some(version),
            ErrorView::SchemaMismatch { version, .. } => Some(version),
            _ => None,
        }
    }

    /// The line that describes the error to a reader.
    pub open spec fn message(self) -> Seq<char> {
        match self {
            ErrorView::Io { path, step: IoStep::Open } => "failed to open rustdoc JSON file "@ + path,
            ErrorView::Io { path, step: IoStep::Read } => "failed to read rustdoc JSON file "@ + path,
            ErrorView::Encoding { path } => "failed to read rustdoc JSON file "@ + path,
            ErrorView::Detection { path, .. } => "unrecognized rustdoc format for file "@ + path,
            ErrorView::UnsupportedVersion { path, version } => "rustdoc format v"@ + decimal_text(
                version as nat,
            ) + " for file "@ + path + " is not supported"@,
            ErrorView::SchemaMismatch { path, version, .. } => "unexpected parse error for v"@
                + decimal_text(version as nat) + " rustdoc for file "@ + path,
        }
    }
}

impl View for LoadError {
    type V = ErrorView;

    open spec fn view(&self) -> ErrorView {
        match self {
            LoadError::Io { path, step, .. } => ErrorView::Io { path: path@, step: *step },
            LoadError::Encoding { path, .. } => ErrorView::Encoding { path: path@ },
            LoadError::Detection { path, cause } => ErrorView::Detection { path: path@, cause: cause@ },
            LoadError::UnsupportedVersion { path, version } => ErrorView::UnsupportedVersion {
                path: path@,
                version: *version,
            },
            LoadError::SchemaMismatch { path, version, cause } => ErrorView::SchemaMismatch {
                path: path@,
                version: *version,
                cause: cause@,
            },
        }
    }
}

impl LoadError {
    /// The path of the document that the error is about.
    pub fn path(&self) -> (path: &str)
        ensures
            path@ == self@.path(),
    {
        match self {
            LoadError::Io { path, .. } => path.as_str(),
            LoadError::Encoding { path, .. } => path.as_str(),
            LoadError::Detection { path, .. } => path.as_str(),
            LoadError::UnsupportedVersion { path, .. } => path.as_str(),
            LoadError::SchemaMismatch { path, .. } => path.as_str(),
        }
    }

    /// The detected version, for the kinds that arise after detection.
    pub fn version(&self) -> (version: Option<u32>)
        ensures
            version == self@.version(),
    {
        match self {
            LoadError::UnsupportedVersion { version, .. } => Some(*version),
            LoadError::SchemaMismatch { version, .. } => Some(*version),
            _ => None,
        }
    }

    /// The line that describes the error to a reader: what failed, for which
    /// file and, where one was detected, under which version.
    pub fn message(&self) -> (line: String)
        ensures
            line@ == self@.message(),
    {
        match self {
            LoadError::Io { path, step, .. } => {
                let head = match step {
                    IoStep::Open => "failed to open rustdoc JSON file ",
                    IoStep::Read => "failed to read rustdoc JSON file ",
                };
                String::from_str(head).concat(path.as_str())
            },
            LoadError::Encoding { path, .. } => {
                String::from_str("failed to read rustdoc JSON file ").concat(path.as_str())
            },
            LoadError::Detection { path, .. } => {
                String::from_str("unrecognized rustdoc format for file ").concat(path.as_str())
            },
            LoadError::UnsupportedVersion { path, version } => {
                let number = decimal(*version);
                String::from_str("rustdoc format v").concat(number.as_str()).concat(
                    " for file ",
                ).concat(path.as_str()).concat(" is not supported")
            },
            LoadError::SchemaMismatch { path, version, .. } => {
                let number = decimal(*version);
                String::from_str("unexpected parse error for v").concat(number.as_str()).concat(
                    " rustdoc for file ",
                ).concat(path.as_str())
            },
        }
    }
}

/// The character of a decimal digit.
pub open spec fn digit_char(digit: nat) -> char
    recommends
        digit < 10,
{
    if digit == 0 {
        '0'
    } else if digit == 1 {
        '1'
    } else if digit == 2 {
        '2'
    } else if digit == 3 {
        '3'
    } else if digit == 4 {
        '4'
    } else if digit == 5 {
        '5'
    } else if digit == 6 {
        '6'
    } else if digit == 7 {
        '7'
    } else if digit == 8 {
        '8'
    } else {
        '9'
    }
}

/// A number in decimal, without sign and without leading zeros.
pub open spec fn decimal_text(number: nat) -> Seq<char>
    decreases number,
{
    if number < 10 {
        seq![digit_char(number)]
    } else {
        decimal_text(number / 10).push(digit_char(number % 10))
    }
}

fn digit_text(digit: u32) -> (text: &'static str)
    requires
        digit < 10,
    ensures
        text@ == seq![digit_char(digit as nat)],
{
    proof {
        reveal_strlit("0");
        reveal_strlit("1");
        reveal_strlit("2");
        reveal_strlit("3");
        reveal_strlit("4");
        reveal_strlit("5");
        reveal_strlit("6");
        reveal_strlit("7");
        reveal_strlit("8");
        reveal_strlit("9");
    }
    let text = if digit == 0 {
        "0"
    } else if digit == 1 {
        "1"
    } else if digit == 2 {
        "2"
    } else if digit == 3 {
        "3"
    } else if digit == 4 {
        "4"
    } else if digit == 5 {
        "5"
    } else if digit == 6 {
        "6"
    } else if digit == 7 {
        "7"
    } else if digit == 8 {
        "8"
    } else {
        "9"
    };
    assert(text@ =~= seq![digit_char(digit as nat)]);
    text
}

/// Writes a number in decimal.
pub fn decimal(number: u32) -> (text: String)
    ensures
        text@ == decimal_text(number as nat),
    decreases number,
{
    if number < 10 {
        String::from_str(digit_text(number))
    } else {
        let head = decimal(number / 10);
        let text = head.concat(digit_text(number % 10));
        assert(text@ =~= decimal_text(number as nat));
        text
    }
}

} // verus!
