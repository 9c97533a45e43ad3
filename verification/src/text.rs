//! The bytes of a file as text.

use vstd::prelude::*;
use vstd::utf8::valid_utf8;
use vstd::string::StringSliceAdditionalSpecFns;

verus! {

#[verifier::external_type_specification]
#[verifier::external_body]
pub struct ExUtf8Error(core::str::Utf8Error);

/// `core::str::from_utf8`: the bytes as a string slice where they are valid
/// UTF-8, an error where they are not. The slice has the very bytes given.
#[verifier::external_body]
pub(crate) fn text_of(bytes: &[u8]) -> (text: Result<&str, core::str::Utf8Error>)
    ensures
        match text {
            Ok(slice) => valid_utf8(bytes@) && slice.spec_bytes() == bytes@,
            Err(_) => !valid_utf8(bytes@),
        },
{
    core::str::from_utf8(bytes)
}

} // verus!
