//! Contracts for the string functions of the standard library that the
//! terminal relies on.

use vstd::prelude::*;
use vstd::utf8::{encode_utf8, valid_utf8};

verus! {

/// `core::str::Utf8Error`: why a byte sequence is not UTF-8. The terminal
/// only tells success from failure and never looks inside.
#[verifier::external_type_specification]
#[verifier::external_body]
pub struct ExUtf8Error(core::str::Utf8Error);

/// `String::push` appends one character to the end of the string.
pub assume_specification[ String::push ](s: &mut String, ch: char)
    ensures
        final(s)@ == old(s)@.push(ch),
;

/// `core::str::from_utf8` succeeds exactly on well-formed UTF-8, and the
/// string slice it then returns consists of the given bytes.
pub assume_specification[ core::str::from_utf8 ](v: &[u8]) -> (r: Result<&str, core::str::Utf8Error>)
    ensures
        r is Ok <==> valid_utf8(v@),
        r matches Ok(s) ==> encode_utf8(s@) == v@,
;

} // verus!
