//! UTF-8 validation of byte buffers, by way of the standard library.
use vstd::prelude::*;
use vstd::string::StringSliceAdditionalSpecFns;
use vstd::utf8::valid_utf8;

verus! {

/// The standard library's UTF-8 validation error, carried through opaquely.
#[verifier::external_type_specification]
#[verifier::external_body]
pub struct ExUtf8Error(core::str::Utf8Error);

/// Calls `core::str::from_utf8`. Its documentation promises `Ok` exactly when the
/// bytes are valid UTF-8, and then the returned string slice has exactly those bytes.
#[verifier::external_body]
pub(crate) fn str_from_utf8(v: &[u8]) -> (r: Result<&str, core::str::Utf8Error>)
    ensures
        r is Ok <==> valid_utf8(v@),
        r matches Ok(s) ==> s.spec_bytes() == v@,
{
    core::str::from_utf8(v)
}

} // verus!
