//! Trusted seam over std's text operations that vstd leaves unspecified:
//! checked UTF-8 decoding, growing a `String`, and materializing
//! copy-on-write values.
use vstd::prelude::*;
use vstd::utf8::valid_utf8;
use vstd::string::StringSliceAdditionalSpecFns;

verus! {

/// Relies on `std::str::from_utf8`: it succeeds exactly when the input is
/// valid UTF-8, and the returned string slice views the input bytes.
#[verifier::external_body]
pub(crate) fn try_str_from_utf8(v: &[u8]) -> (r: Option<&str>)
    ensures
        r is Some <==> valid_utf8(v@),
        r matches Some(s) ==> s.spec_bytes() == v@,
{
    std::str::from_utf8(v).ok()
}

/// Relies on `String::push`: appends the given character to the end of the
/// string.
pub assume_specification[ String::push ](s: &mut String, ch: char)
    ensures
        final(s)@ == old(s)@.push(ch),
;

/// Relies on `String::push_str`: appends the given string slice to the end of
/// the string.
pub assume_specification[ String::push_str ](s: &mut String, other: &str)
    ensures
        final(s)@ == old(s)@ + other@,
;

/// Relies on `Cow::<[u8]>::into_owned`: hands back the owned bytes, cloning
/// them first when the value was borrowed; either way the result holds the
/// value's bytes.
#[verifier::external_body]
pub(crate) fn cow_bytes_into_vec(c: std::borrow::Cow<'_, [u8]>) -> (r: Vec<u8>)
    ensures
        r@ == c@,
{
    c.into_owned()
}

/// Relies on `Cow::<str>::into_owned`: hands back the owned string, cloning
/// it first when the value was borrowed; either way the result holds the
/// value's characters.
#[verifier::external_body]
pub(crate) fn cow_str_into_string(c: std::borrow::Cow<'_, str>) -> (r: String)
    ensures
        r@ == c@,
{
    c.into_owned()
}

} // verus!
