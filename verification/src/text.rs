//! What this library needs of the standard library's strings beyond the
//! specifications that vstd gives: appending one character, and checking
//! bytes for UTF-8.

use vstd::prelude::*;
use vstd::string::StringSliceAdditionalSpecFns;
use vstd::utf8::valid_utf8;

verus! {

/// `core::str::Utf8Error`, the error that `core::str::from_utf8` returns.
/// Nothing is claimed of what it holds; it is only told apart from success.
#[verifier::external_type_specification]
#[verifier::external_body]
pub struct ExUtf8Error(core::str::Utf8Error);

/// `String::push` appends the given character to the end of the string.
/// Assumed, not proved: the characters after the call are those before it
/// followed by `ch`.
pub assume_specification[ String::push ](s: &mut String, ch: char)
    ensures
        final(s)@ == old(s)@.push(ch),
;

/// `core::str::from_utf8` checks that the bytes are valid UTF-8 and, if they
/// are, hands them back as a string slice. Assumed, not proved: it succeeds
/// exactly on valid UTF-8, and the slice it returns occupies the very bytes
/// it was given.
pub assume_specification<'a>[ core::str::from_utf8 ](v: &'a [u8]) -> (res: Result<
    &'a str,
    core::str::Utf8Error,
>)
    ensures
        res is Ok <==> valid_utf8(v@),
        res matches Ok(s) ==> s.spec_bytes() == v@,
;

} // verus!
