//! Encodings that the REST and stream protocols need: HMAC-SHA256
//! signatures in hexadecimal, and a little JSON.
use hmac::Mac;
use vstd::prelude::*;

verus! {

/// `serde_json::Error`, the error of reading or writing JSON.
#[verifier::external_type_specification]
#[verifier::external_body]
pub struct ExJsonError(serde_json::Error);

/// `hmac::digest::InvalidLength`, the error of a key of unusable length.
#[verifier::external_type_specification]
#[verifier::external_body]
pub struct ExInvalidLength(hmac::digest::InvalidLength);

/// The HMAC-SHA256 code of `message` under `key`.
pub uninterp spec fn hmac_sha256(key: Seq<u8>, message: Seq<u8>) -> Seq<u8>;

/// What a JSON text holds under a key at its top level: nothing when the
/// text is no JSON; otherwise the text of the string found under `key`, if
/// the JSON is an object that has a string there.
pub uninterp spec fn json_field_text(body: Seq<char>, key: Seq<char>) -> Option<Option<Seq<char>>>;

/// What `serde_json` makes of writing the given strings as a JSON array:
/// the text of the array, or nothing when it reports an error.
pub uninterp spec fn json_array_text(items: Seq<Seq<char>>) -> Option<Seq<char>>;

/// The lower-case hexadecimal digit of a number below sixteen.
pub open spec fn hex_digit(n: int) -> char {
    if n == 0 {
        '0'
    } else if n == 1 {
        '1'
    } else if n == 2 {
        '2'
    } else if n == 3 {
        '3'
    } else if n == 4 {
        '4'
    } else if n == 5 {
        '5'
    } else if n == 6 {
        '6'
    } else if n == 7 {
        '7'
    } else if n == 8 {
        '8'
    } else if n == 9 {
        '9'
    } else if n == 10 {
        'a'
    } else if n == 11 {
        'b'
    } else if n == 12 {
        'c'
    } else if n == 13 {
        'd'
    } else if n == 14 {
        'e'
    } else {
        'f'
    }
}

/// The bytes in hexadecimal: two lower-case digits per byte, high digit
/// first.
pub open spec fn hex_text(bytes: Seq<u8>) -> Seq<char> {
    Seq::new(
        2 * bytes.len(),
        |i: int|
            if i % 2 == 0 {
                hex_digit(bytes[i / 2] as int / 16)
            } else {
                hex_digit(bytes[i / 2] as int % 16)
            },
    )
}

/// Computes the HMAC-SHA256 code of `message` under `key` with the `hmac`
/// and `sha2` crates: `Hmac::<Sha256>::new_from_slice`, `update`, `finalize`
/// and `into_bytes`. HMAC takes a key of any length, and `new_from_slice`
/// returns `Ok` for every key, so the contract promises a code: the one
/// that the name [`hmac_sha256`] stands for, as long as a SHA-256 digest,
/// 32 bytes.
#[verifier::external_body]
pub(crate) fn outside_hmac_sha256(key: &[u8], message: &[u8]) -> (r: Result<
    Vec<u8>,
    hmac::digest::InvalidLength,
>)
    ensures
        r is Ok,
        r matches Ok(code) ==> code@ == hmac_sha256(key@, message@) && code@.len() == 32,
{
    let mut mac = hmac::Hmac::<sha2::Sha256>::new_from_slice(key)?;
    mac.update(message);
    Ok(mac.finalize().into_bytes().to_vec())
}

/// Calls `hex::encode`, which writes each byte as two lower-case
/// hexadecimal digits.
#[verifier::external_body]
pub(crate) fn outside_hex(bytes: &[u8]) -> (s: String)
    ensures
        s@ == hex_text(bytes@),
{
    hex::encode(bytes)
}

/// Reads `body` as JSON with `serde_json::from_str` into a
/// `serde_json::Value`, looks `key` up with `Value::get` and takes the
/// string there with `Value::as_str`. A text that is no JSON comes back as
/// the error of `serde_json`. The contract names the result
/// ([`json_field_text`]).
#[verifier::external_body]
pub(crate) fn outside_json_field(body: &str, key: &str) -> (r: Result<
    Option<String>,
    serde_json::Error,
>)
    ensures
        match r {
            Ok(Some(text)) => json_field_text(body@, key@) == Some(Some(text@)),
            Ok(None) => json_field_text(body@, key@) == Some(None::<Seq<char>>),
            Err(_) => json_field_text(body@, key@).is_none(),
        },
{
    let value: serde_json::Value = serde_json::from_str(body)?;
    match value.get(key) {
        Some(field) => match field.as_str() {
            Some(text) => Ok(Some(text.to_string())),
            None => Ok(None),
        },
        None => Ok(None),
    }
}

/// Writes the strings as a JSON array with `serde_json::to_string`. The
/// contract names the outcome ([`json_array_text`]): the text that was
/// written, or that the call reported an error. The outcome depends on the
/// strings alone.
#[verifier::external_body]
pub(crate) fn outside_json_array(items: &Vec<String>) -> (r: Result<String, serde_json::Error>)
    ensures
        match r {
            Ok(text) => json_array_text(items.deep_view()) == Some(text@),
            Err(_) => json_array_text(items.deep_view()).is_none(),
        },
{
    serde_json::to_string(items)
}

} // verus!
