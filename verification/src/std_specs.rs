//! What this library takes on trust about the standard library: the
//! contracts below are believed, not proved.

use vstd::prelude::*;
use vstd::string::StringSliceAdditionalSpecFns;
use vstd::utf8::valid_utf8;

verus! {

/// The error with which `core::str::from_utf8` rejects a byte string. Nothing
/// is read from it.
#[verifier::external_type_specification]
#[verifier::external_body]
pub struct ExUtf8Error(core::str::Utf8Error);

/// `core::str::from_utf8` succeeds exactly on the byte strings that are valid
/// UTF-8, and the string slice it then returns consists of the very bytes it
/// was given.
pub assume_specification[ core::str::from_utf8 ](v: &[u8]) -> (res: Result<
    &str,
    core::str::Utf8Error,
>)
    ensures
        res is Ok <==> valid_utf8(v@),
        res matches Ok(s) ==> s.spec_bytes() =~= v@,
;

/// `Vec::into_boxed_slice` turns a vector into a boxed slice that holds the
/// same elements in the same order.
#[verifier::external_body]
pub(crate) fn into_boxed_slice(bytes: Vec<u8>) -> (boxed: Box<[u8]>)
    ensures
        boxed@ == bytes@,
{
    bytes.into_boxed_slice()
}

} // verus!
