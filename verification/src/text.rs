//! Text helpers: decoding stored bytes, case folding, comparing and joining
//! strings.

use vstd::prelude::*;
use vstd::string::StringExecFns;
use vstd::utf8::*;

verus! {

/// Decodes UTF-8 bytes into a string (`String::from_utf8`): there is a string
/// exactly when the bytes are valid UTF-8, and it holds the characters they
/// encode.
#[verifier::external_body]
pub(crate) fn decode_text(bytes: &[u8]) -> (text: Option<String>)
    ensures
        text is Some <==> valid_utf8(bytes@),
        text matches Some(t) ==> t@ == decode_utf8(bytes@),
{
    match String::from_utf8(bytes.to_vec()) {
        Ok(t) => Some(t),
        Err(_) => None,
    }
}

/// The lower-case form of a text, as `str::to_lowercase` computes it.
pub uninterp spec fn lowercase_chars(text: Seq<char>) -> Seq<char>;

/// The lower-case form of `text` (`str::to_lowercase`).
#[verifier::external_body]
pub(crate) fn lowercase(text: &str) -> (lower: String)
    ensures
        lower@ == lowercase_chars(text@),
{
    text.to_lowercase()
}

/// The text form of a UUID given by its 16 bytes, as the `uuid` crate
/// displays it (hyphenated, lower-case hexadecimal).
pub uninterp spec fn hyphenated_uuid(bytes: Seq<u8>) -> Seq<char>;

/// The hyphenated text of the UUID with bytes `id`
/// (`uuid::Uuid::from_bytes`, then its `Display`): 36 characters.
#[verifier::external_body]
pub(crate) fn uuid_text(id: [u8; 16]) -> (text: String)
    ensures
        text@ == hyphenated_uuid(id@),
        text@.len() == 36,
{
    uuid::Uuid::from_bytes(id).to_string()
}

/// Whether two texts are equal.
pub(crate) fn text_eq(a: &str, b: &str) -> (equal: bool)
    ensures
        equal == (a@ == b@),
{
    String::from_str(a) == String::from_str(b)
}

/// The text `a` followed by `b`.
pub(crate) fn join(a: &str, b: &str) -> (joined: String)
    ensures
        joined@ == a@ + b@,
{
    let mut joined = String::from_str(a);
    joined.append(b);
    joined
}

/// The text `a`, then `b`, then `c`.
pub(crate) fn join3(a: &str, b: &str, c: &str) -> (joined: String)
    ensures
        joined@ == a@ + b@ + c@,
{
    let mut joined = String::from_str(a);
    joined.append(b);
    joined.append(c);
    joined
}

} // verus!
