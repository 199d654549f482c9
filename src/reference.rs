//! The reference: the URL-safe text that stands for a file name in a download URL.
//!
//! A reference is the unpadded URL-safe base64 text of the name's UTF-8 bytes. Encoding loses
//! nothing and normalizes nothing, so decoding a reference gives back the exact name.
use vstd::prelude::*;
use vstd::string::StringSliceAdditionalSpecFns;
use vstd::utf8::*;

verus! {

#[verifier::external_type_specification]
#[verifier::external_body]
pub struct ExBase64DecodeError(base64::DecodeError);

#[verifier::external_type_specification]
#[verifier::external_body]
pub struct ExUtf8Error(std::str::Utf8Error);

/// Why a reference could not be read back into a file name.
#[derive(Clone, Copy, Debug, PartialEq, Eq, Structural)]
pub enum ReferenceError {
    /// The text is not unpadded URL-safe base64.
    Malformed,
    /// The decoded bytes are not UTF-8 text.
    NotUtf8,
}

/// The unpadded URL-safe base64 text of `bytes`.
pub uninterp spec fn url_safe_no_pad_of(bytes: Seq<u8>) -> Seq<char>;

/// A character of the URL-safe base64 alphabet.
pub open spec fn is_url_safe_char(c: char) -> bool {
    ('A' <= c <= 'Z') || ('a' <= c <= 'z') || ('0' <= c <= '9') || c == '-' || c == '_'
}

/// The length of the unpadded base64 text of `len` bytes: four characters for every three
/// bytes, and two or three for a last group of one or two bytes.
pub open spec fn encoded_len(len: nat) -> nat {
    ((4 * len + 2) / 3) as nat
}

/// The reference of a file name.
pub open spec fn reference_of(name: Seq<char>) -> Seq<char> {
    url_safe_no_pad_of(encode_utf8(name))
}

/// Whether `len` bytes have an encoded length that fits in `usize`.
pub open spec fn encodable_len(len: nat) -> bool {
    len <= usize::MAX / 4 * 3
}

/// What decoding `token` gives: the name whose reference it is; else `Malformed` when no bytes
/// encode to it, and `NotUtf8` when the bytes it encodes are not UTF-8.
pub open spec fn decodes_to(token: Seq<char>, outcome: Result<Seq<char>, ReferenceError>) -> bool {
    &&& forall|name: Seq<char>| #[trigger]
        reference_of(name) == token ==> outcome == Ok::<Seq<char>, ReferenceError>(name)
    &&& match outcome {
        Ok(name) => reference_of(name) == token,
        Err(ReferenceError::Malformed) => forall|b: Seq<u8>| #[trigger] url_safe_no_pad_of(b) != token,
        Err(ReferenceError::NotUtf8) => exists|b: Seq<u8>|
            #[trigger] url_safe_no_pad_of(b) == token && !valid_utf8(b),
    }
}

/// The view of a decoding outcome.
pub open spec fn outcome_view(r: Result<String, ReferenceError>) -> Result<Seq<char>, ReferenceError> {
    match r {
        Ok(s) => Ok(s@),
        Err(e) => Err(e),
    }
}

/// Relies on base64's `URL_SAFE_NO_PAD.encode`, which panics only when the encoded length
/// overflows `usize`: its text is made of the URL-safe alphabet (`alphabet::URL_SAFE`), with no
/// padding, and its length is the one `encoded_len` computes without padding.
#[verifier::external_body]
fn encode_url_safe(bytes: &[u8]) -> (r: String)
    requires
        encodable_len(bytes@.len()),
    ensures
        r@ == url_safe_no_pad_of(bytes@),
        r@.len() == encoded_len(bytes@.len()),
        forall|i: int| 0 <= i < r@.len() ==> is_url_safe_char(#[trigger] r@[i]),
{
    base64::Engine::encode(&base64::engine::general_purpose::URL_SAFE_NO_PAD, bytes)
}

/// Relies on base64's `URL_SAFE_NO_PAD.decode`: it gives back the bytes that `encode` turned
/// into `text`, and refuses any text that `encode` does not give (padding, symbols outside the
/// URL-safe alphabet, an impossible length, nonzero trailing bits).
#[verifier::external_body]
fn decode_url_safe(text: &str) -> (r: Result<Vec<u8>, base64::DecodeError>)
    ensures
        forall|b: Seq<u8>| #[trigger]
            url_safe_no_pad_of(b) == text@ ==> r is Ok && r->Ok_0@ == b,
        r matches Ok(v) ==> url_safe_no_pad_of(v@) == text@,
{
    base64::Engine::decode(&base64::engine::general_purpose::URL_SAFE_NO_PAD, text)
}

/// Relies on std's `str::from_utf8`: it succeeds exactly on valid UTF-8, and the text it gives
/// is made of those bytes.
#[verifier::external_body]
fn text_from_utf8(bytes: &[u8]) -> (r: Result<&str, std::str::Utf8Error>)
    ensures
        r is Ok <==> valid_utf8(bytes@),
        r matches Ok(s) ==> s.spec_bytes() == bytes@,
{
    std::str::from_utf8(bytes)
}

/// The reference of a file name.
pub fn encode_reference(name: &str) -> (r: String)
    requires
        encodable_len(name.spec_bytes().len()),
    ensures
        r@ == reference_of(name@),
        r@.len() == encoded_len(name.spec_bytes().len()),
        forall|i: int| 0 <= i < r@.len() ==> is_url_safe_char(#[trigger] r@[i]),
{
    encode_url_safe(name.as_bytes())
}

/// Reads a reference back into the file name it stands for.
pub fn decode_reference(token: &str) -> (r: Result<String, ReferenceError>)
    ensures
        decodes_to(token@, outcome_view(r)),
{
    let bytes = match decode_url_safe(token) {
        Ok(b) => b,
        Err(_) => return Err(ReferenceError::Malformed),
    };
    match text_from_utf8(bytes.as_slice()) {
        Ok(text) => {
            proof {
                encode_utf8_decode_utf8(text@);
                assert forall|name: Seq<char>| #[trigger]
                    reference_of(name) == token@ implies name == text@ by {
                    encode_utf8_decode_utf8(name);
                }
            }
            Ok(text.to_owned())
        },
        Err(_) => {
            proof {
                assert forall|name: Seq<char>| #[trigger]
                    reference_of(name) == token@ implies false by {
                    encode_utf8_valid_utf8(name);
                }
            }
            Err(ReferenceError::NotUtf8)
        },
    }
}

/// Decoding the reference of a file name gives back that name, whatever it holds.
pub proof fn lemma_reference_round_trip(name: Seq<char>, outcome: Result<Seq<char>, ReferenceError>)
    requires
        decodes_to(reference_of(name), outcome),
    ensures
        outcome == Ok::<Seq<char>, ReferenceError>(name),
{
}

} // verus!
