//! The boundary to `simd_json`: the structural tape that the accelerated
//! loader builds once and reads twice.

use vstd::prelude::*;
use simd_json::prelude::ValueObjectAccessAsScalar;
use crate::json::{json_member, json_unsigned, json_view, Json};
use crate::nesting::{nesting_depth, MAX_NESTING};

verus! {

#[verifier::external_type_specification]
#[verifier::external_body]
pub struct ExTape<'input>(simd_json::Tape<'input>);

#[verifier::external_type_specification]
#[verifier::external_body]
pub struct ExTapeError(simd_json::Error);

/// The tape that `simd_json` builds from a buffer, or `None` where it does
/// not accept the buffer as JSON.
pub uninterp spec fn bytes_tape(bytes: Seq<u8>) -> Option<simd_json::Tape<'static>>;

/// The document that a tape holds, as lookups on the tape see it: where an
/// object names a member twice, the first of the two.
pub uninterp spec fn tape_view(tape: simd_json::Tape<'static>) -> Json;

/// The model of the `serde_json::Value` that a tape deserializes into, or
/// `None` where deserializing reports an error.
pub uninterp spec fn tape_json(tape: simd_json::Tape<'static>) -> Option<Json>;

/// A tape that `simd_json` built from some buffer, as opposed to one that
/// was put together by hand.
pub open spec fn built_by_parser(tape: simd_json::Tape<'static>) -> bool {
    exists|bytes: Seq<u8>| #[trigger] bytes_tape(bytes) == Some(tape)
}

/// A tape that was built from a buffer whose arrays and objects nest no
/// deeper than the loaders follow.
pub open spec fn built_from_shallow(tape: simd_json::Tape<'static>) -> bool {
    exists|bytes: Seq<u8>| #[trigger] bytes_tape(bytes) == Some(tape) && nesting_depth(bytes) <= MAX_NESTING
}

/// `simd_json::to_tape`: builds the tape of a buffer, or reports that the
/// buffer is no JSON. It rewrites strings inside the buffer and keeps the
/// buffer's length. Whether it succeeds, and with which tape, depends on the
/// bytes alone.
#[verifier::external_body]
pub(crate) fn build_tape<'a>(bytes: &'a mut Vec<u8>) -> (built: Result<
    simd_json::Tape<'a>,
    simd_json::Error,
>)
    ensures
        final(bytes)@.len() == old(bytes)@.len(),
        match built {
            Ok(tape) => bytes_tape(old(bytes)@) == Some(tape),
            Err(_) => bytes_tape(old(bytes)@) is None,
        },
{
    simd_json::to_tape(bytes.as_mut_slice())
}

/// `get_u32` on the value of the tape: the first member of that name in
/// the root object, where it is an integer from 0 to `u32::MAX`; `None` where
/// the root is no object, has no such member, or the member is anything else.
/// The lookup trusts the node counts on the tape, so only a tape that the
/// parser built may be handed in.
#[verifier::external_body]
pub(crate) fn tape_member_u32(tape: &simd_json::Tape<'_>, key: &str) -> (number: Option<u32>)
    requires
        built_by_parser(*tape),
    ensures
        match json_member(tape_view(*tape), key@) {
            Some(value) => match number {
                Some(n) => json_unsigned(value, u32::MAX as int) == Some(n as int),
                None => json_unsigned(value, u32::MAX as int) is None,
            },
            None => number is None,
        },
{
    tape.as_value().get_u32(key)
}

/// `simd_json::Tape::deserialize::<serde_json::Value>`: turns the tape into
/// a value, by recursion over its arrays and objects. The recursion has no
/// limit of its own, so only a tape of bounded nesting may be handed in: a
/// tape nests as deeply as the brackets of its buffer do outside of strings,
/// which is what `nesting_depth` measures. Whether it succeeds, and with which
/// value, depends on the tape alone.
#[verifier::external_body]
pub(crate) fn tape_document(tape: simd_json::Tape<'_>) -> (document: Result<
    serde_json::Value,
    simd_json::Error,
>)
    requires
        built_from_shallow(tape),
    ensures
        match document {
            Ok(value) => tape_json(tape) == Some(json_view(value)),
            Err(_) => tape_json(tape) is None,
        },
{
    tape.deserialize::<serde_json::Value>()
}

} // verus!
