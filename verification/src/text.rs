//! The string operations of std that the routing and the title decoding use.
use vstd::prelude::*;
use vstd::string::StringSliceAdditionalSpecFns;
use vstd::utf8::valid_utf8;

verus! {

/// Calls `str::starts_with` with a string prefix.  Trusted: the result is
/// whether `prefix` is a prefix of `s`, as its documentation says.
#[verifier::external_body]
pub(crate) fn starts_with(s: &str, prefix: &str) -> (b: bool)
    ensures
        b == prefix@.is_prefix_of(s@),
{
    s.starts_with(prefix)
}

/// Calls `str::strip_prefix` with a string prefix.  Trusted: it gives the
/// rest of `s` exactly when `prefix` is a prefix of `s`, as its
/// documentation says.
#[verifier::external_body]
pub(crate) fn strip_prefix<'a>(s: &'a str, prefix: &str) -> (r: Option<&'a str>)
    ensures
        r is Some <==> prefix@.is_prefix_of(s@),
        r matches Some(rest) ==> s@ == prefix@ + rest@,
{
    s.strip_prefix(prefix)
}

/// Calls `std::str::from_utf8`.  Trusted: it gives a string exactly when the
/// bytes are valid UTF-8, and the string has those bytes, as its
/// documentation says.
#[verifier::external_body]
pub(crate) fn utf8_str(bytes: &[u8]) -> (r: Option<&str>)
    ensures
        r is Some <==> valid_utf8(bytes@),
        r matches Some(s) ==> s.spec_bytes() == bytes@,
{
    std::str::from_utf8(bytes).ok()
}

} // verus!
