//! Parsing of the optional credential pair from the configuration surface:
//! a base64 string that must decode to UTF-8 text of the shape `user:pass`,
//! split at the first colon.

use vstd::prelude::*;
use vstd::string::StrSliceExecFns;

verus! {

/// Why a credential string was rejected.
#[derive(Debug, PartialEq, Eq, Copy, Clone, Structural)]
pub enum AuthError {
    /// The string is not valid base64.
    InvalidBase64,
    /// The decoded bytes are not valid UTF-8.
    InvalidUtf8,
    /// The decoded text holds no colon to split at.
    MissingSeparator,
}

/// What the standard-alphabet base64 decoding of a string is, if it is
/// valid base64: a function of the characters alone.
pub uninterp spec fn base64_decoded(s: Seq<char>) -> Option<Seq<u8>>;

/// What the UTF-8 decoding of a byte sequence is, if the bytes are valid
/// UTF-8: a function of the bytes alone.
pub uninterp spec fn utf8_decoded(bytes: Seq<u8>) -> Option<Seq<char>>;

/// The declared shape of base64's decode error, carried through unread.
#[verifier::external_type_specification]
#[verifier::external_body]
pub struct ExDecodeError(base64::DecodeError);

/// The declared shape of std's UTF-8 conversion error, carried through
/// unread.
#[verifier::external_type_specification]
#[verifier::external_body]
pub struct ExFromUtf8Error(std::string::FromUtf8Error);

/// Relies on base64::Engine::decode with the standard engine: whether and to
/// what bytes a string decodes depends on its characters alone.
#[verifier::external_body]
fn decode_base64(s: &str) -> (r: Result<Vec<u8>, base64::DecodeError>)
    ensures
        r is Ok <==> base64_decoded(s@) is Some,
        r is Ok ==> r->Ok_0@ == base64_decoded(s@)->Some_0,
{
    base64::Engine::decode(&base64::engine::general_purpose::STANDARD, s)
}

/// Relies on String::from_utf8: whether and to what characters a byte
/// sequence decodes depends on the bytes alone.
#[verifier::external_body]
fn decode_utf8(bytes: Vec<u8>) -> (r: Result<String, std::string::FromUtf8Error>)
    ensures
        r is Ok <==> utf8_decoded(bytes@) is Some,
        r is Ok ==> r->Ok_0@ == utf8_decoded(bytes@)->Some_0,
{
    String::from_utf8(bytes)
}

/// Whether some character of the text is a colon.
pub open spec fn has_colon(chars: Seq<char>) -> bool {
    exists|i: int| 0 <= i < chars.len() && chars[i] == ':'
}

/// Whether `i` is the index of the first colon of the text.
pub open spec fn is_first_colon(chars: Seq<char>, i: int) -> bool {
    &&& 0 <= i < chars.len()
    &&& chars[i] == ':'
    &&& forall|j: int| 0 <= j < i ==> chars[j] != ':'
}

/// Parses a base64-encoded credential pair: the decoded text is split at its
/// first colon into user and password. Each failure names the stage that
/// rejected the input.
pub fn parse_auth(encoded: &str) -> (r: Result<(String, String), AuthError>)
    ensures
        match base64_decoded(encoded@) {
            Option::None => r == Result::<(String, String), AuthError>::Err(
                AuthError::InvalidBase64,
            ),
            Option::Some(bytes) => match utf8_decoded(bytes) {
                Option::None => r == Result::<(String, String), AuthError>::Err(
                    AuthError::InvalidUtf8,
                ),
                Option::Some(chars) => {
                    &&& (r is Ok <==> has_colon(chars))
                    &&& !has_colon(chars) ==> r == Result::<(String, String), AuthError>::Err(
                        AuthError::MissingSeparator,
                    )
                    &&& forall|i: int|
                        is_first_colon(chars, i) ==> r is Ok && r->Ok_0.0@ == chars.subrange(0, i)
                            && r->Ok_0.1@ == chars.subrange(i + 1, chars.len() as int)
                },
            },
        },
{
    let bytes = match decode_base64(encoded) {
        Result::Ok(b) => b,
        Result::Err(_) => {
            return Result::Err(AuthError::InvalidBase64);
        },
    };
    let text = match decode_utf8(bytes) {
        Result::Ok(t) => t,
        Result::Err(_) => {
            return Result::Err(AuthError::InvalidUtf8);
        },
    };
    let s: &str = text.as_str();
    let n = s.unicode_len();
    let ghost chars = utf8_decoded(base64_decoded(encoded@)->Some_0)->Some_0;
    let mut i: usize = 0;
    while i < n
        invariant
            i <= n,
            n == s@.len(),
            s@ == chars,
            base64_decoded(encoded@) is Some,
            utf8_decoded(base64_decoded(encoded@)->Some_0) == Option::Some(chars),
            forall|j: int| 0 <= j < i ==> chars[j] != ':',
        decreases n - i,
    {
        if s.get_char(i) == ':' {
            let user = s.substring_char(0, i).to_owned();
            let pass = s.substring_char(i + 1, n).to_owned();
            proof {
                assert(is_first_colon(chars, i as int));
                assert forall|k: int| is_first_colon(chars, k) implies k == i as int by {
                    if k < i as int {
                        assert(chars[k] != ':');
                    } else if k > i as int {
                        assert(chars[i as int] != ':');
                    }
                }
            }
            return Result::Ok((user, pass));
        }
        i += 1;
    }
    proof {
        assert(!has_colon(chars));
    }
    Result::Err(AuthError::MissingSeparator)
}

} // verus!
