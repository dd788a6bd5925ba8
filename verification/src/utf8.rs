//! Decoding of UTF-8 text, by the standard library's validator.

use vstd::prelude::*;
use vstd::utf8::*;

verus! {

/// Where and how a byte sequence stops being UTF-8.
#[derive(PartialEq, Eq, Clone, Copy, Debug)]
pub struct Utf8Error {
    /// The length of the longest prefix that is valid UTF-8.
    pub valid_up_to: usize,
    /// The length of the offending byte sequence that starts there, or
    /// `None` where the input ends in the middle of a character.
    pub error_len: Option<usize>,
}

/// Whether `end` is the length of the longest prefix of `bytes` that is
/// valid UTF-8.
pub open spec fn is_valid_up_to(bytes: Seq<u8>, end: int) -> bool {
    &&& 0 <= end <= bytes.len()
    &&& valid_utf8(bytes.take(end))
    &&& forall|longer: int|
        end < longer <= bytes.len() ==> !valid_utf8(#[trigger] bytes.take(longer))
}

/// The length of the longest prefix of `bytes` that is valid UTF-8.
pub open spec fn valid_up_to(bytes: Seq<u8>) -> int {
    choose|end: int| is_valid_up_to(bytes, end)
}

/// What `Utf8Error::error_len` reports for the error that
/// `std::str::from_utf8` raises on `bytes`.
pub uninterp spec fn error_len(bytes: Seq<u8>) -> Option<usize>;

/// The error that decoding `bytes` raises when they are not valid UTF-8.
pub open spec fn utf8_failure(bytes: Seq<u8>) -> Utf8Error {
    Utf8Error { valid_up_to: valid_up_to(bytes) as usize, error_len: error_len(bytes) }
}

/// Only one length is that of the longest valid prefix.
pub proof fn lemma_valid_up_to_is_unique(bytes: Seq<u8>, end: int)
    requires
        is_valid_up_to(bytes, end),
    ensures
        valid_up_to(bytes) == end,
{
    let chosen = valid_up_to(bytes);
    assert(is_valid_up_to(bytes, chosen));
    if chosen < end {
        assert(!valid_utf8(bytes.take(end)));
    }
    if end < chosen {
        assert(!valid_utf8(bytes.take(chosen)));
    }
}

/// `std::str::from_utf8`, with its error turned into plain numbers.
///
/// Trusted: the call succeeds exactly on valid UTF-8, and the text it
/// returns is made of the very bytes it was given. On failure,
/// `Utf8Error::valid_up_to` is the greatest length whose prefix would have
/// been accepted, and `Utf8Error::error_len` depends on the bytes alone.
#[verifier::external_body]
pub(crate) fn from_utf8<'a>(bytes: &'a [u8]) -> (decoded: Result<&'a str, Utf8Error>)
    ensures
        decoded is Ok <==> valid_utf8(bytes@),
        decoded matches Ok(text) ==> encode_utf8(text@) == bytes@,
        decoded matches Err(error) ==> is_valid_up_to(bytes@, error.valid_up_to as int)
            && error.error_len == error_len(bytes@),
{
    match std::str::from_utf8(bytes) {
        Ok(text) => Ok(text),
        Err(error) => Err(
            Utf8Error { valid_up_to: error.valid_up_to(), error_len: error.error_len() },
        ),
    }
}

/// Decodes `bytes` as UTF-8 text: the decoded characters when the bytes are
/// valid, the position of the first fault when they are not.
pub fn decode_text(bytes: &[u8]) -> (decoded: Result<String, Utf8Error>)
    ensures
        match decoded {
            Ok(text) => valid_utf8(bytes@) && text@ == decode_utf8(bytes@),
            Err(error) => !valid_utf8(bytes@) && error == utf8_failure(bytes@),
        },
{
    match from_utf8(bytes) {
        Ok(text) => {
            proof {
                encode_utf8_decode_utf8(text@);
            }
            Ok(text.to_owned())
        },
        Err(error) => {
            proof {
                lemma_valid_up_to_is_unique(bytes@, error.valid_up_to as int);
            }
            Err(error)
        },
    }
}

} // verus!
