//! Integrity of a download: the MD5 hash of what was received against the
//! hash that the release page gives. The hash is computed by the `md5` crate.

use vstd::prelude::*;
use crate::error::Error;
use crate::text::{chars_of, eq_ignore_ascii_case, same_ignoring_ascii_case};

verus! {

/// The MD5 digest of `data`, written as 32 lower-case hexadecimal digits.
pub uninterp spec fn md5_hex(data: Seq<u8>) -> Seq<char>;

/// Calls `md5::compute` on `data` and formats the digest with `{:x}`. The
/// contract only gives the outcome its name, `md5_hex`.
#[verifier::external_body]
pub(crate) fn md5_of(data: &[u8]) -> (r: String)
    ensures
        r@ == md5_hex(data@),
{
    format!("{:x}", md5::compute(data))
}

/// `data` has the hash `expected`; the case of the hexadecimal digits does
/// not count.
pub open spec fn verifies(data: Seq<u8>, expected: Seq<char>) -> bool {
    same_ignoring_ascii_case(md5_hex(data), expected)
}

/// Compares a computed hash with the expected one.
pub fn check_hash(actual: &str, expected: &str) -> (r: Result<(), Error>)
    ensures
        r is Ok <==> same_ignoring_ascii_case(actual@, expected@),
        r matches Err(e) ==> e == Error::HashMismatch,
{
    let a = chars_of(actual);
    let x = chars_of(expected);
    if eq_ignore_ascii_case(a.as_slice(), x.as_slice()) {
        Ok(())
    } else {
        Err(Error::HashMismatch)
    }
}

/// Whether `data` has the hash `expected`.
pub fn matches_hash(data: &[u8], expected: &str) -> (r: bool)
    ensures
        r == verifies(data@, expected@),
{
    let actual = md5_of(data);
    check_hash(actual.as_str(), expected).is_ok()
}

/// Verifies `data` against the hash `expected`.
pub fn verify(data: &[u8], expected: &str) -> (r: Result<(), Error>)
    ensures
        r is Ok <==> verifies(data@, expected@),
        r matches Err(e) ==> e == Error::HashMismatch,
{
    let actual = md5_of(data);
    check_hash(actual.as_str(), expected)
}

/// Verifying the same bytes against the same expected hash gives the same
/// answer every time: whatever two verifications return, they agree.
pub proof fn lemma_verify_is_repeatable(
    data: Seq<u8>,
    expected: Seq<char>,
    first: Result<(), Error>,
    second: Result<(), Error>,
)
    requires
        first is Ok <==> verifies(data, expected),
        second is Ok <==> verifies(data, expected),
    ensures
        first is Ok <==> second is Ok,
{
}

/// The case of the expected hash does not matter: two expected hashes that
/// differ only in case accept the same data.
pub proof fn lemma_verify_ignores_case(data: Seq<u8>, expected: Seq<char>, other: Seq<char>)
    requires
        same_ignoring_ascii_case(expected, other),
    ensures
        verifies(data, expected) == verifies(data, other),
{
    let actual = md5_hex(data);
    if same_ignoring_ascii_case(actual, expected) {
        assert forall|i: int| 0 <= i < actual.len() implies crate::text::ascii_folded(
            #[trigger] actual[i],
        ) == crate::text::ascii_folded(other[i]) by {
            assert(crate::text::ascii_folded(expected[i]) == crate::text::ascii_folded(other[i]));
        }
    }
    if same_ignoring_ascii_case(actual, other) {
        assert forall|i: int| 0 <= i < actual.len() implies crate::text::ascii_folded(
            #[trigger] actual[i],
        ) == crate::text::ascii_folded(expected[i]) by {
            assert(crate::text::ascii_folded(expected[i]) == crate::text::ascii_folded(other[i]));
        }
    }
}

} // verus!
