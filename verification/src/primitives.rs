//! Trusted entry points into the hashing crate, with the names that the rest of
//! the library reasons about.

use rand::RngCore;
use serde_json::Error as JsonError;
use vstd::string::StringSliceAdditionalSpecFns;

use crate::jcs::json_quoted;
use sha2::{Digest, Sha256};
use vstd::prelude::*;

verus! {

/// The SHA-256 digest of a byte string, as computed by the `sha2` crate.
pub uninterp spec fn sha256_spec(data: Seq<u8>) -> Seq<u8>;

/// Calls `sha2::Sha256::digest` on `data`. Trusted: the 32 bytes returned are
/// the digest that the crate computes for exactly these input bytes.
#[verifier::external_body]
pub(crate) fn sha256(data: &[u8]) -> (digest: [u8; 32])
    ensures
        digest@ == sha256_spec(data@),
{
    Sha256::digest(data).into()
}


/// The ASCII character of a hexadecimal digit `d < 16`, lowercase.
pub open spec fn hex_digit_char(d: nat) -> char {
    if d < 10 {
        (48 + d) as char
    } else {
        (87 + d) as char
    }
}

/// Lowercase hexadecimal text of a byte string, two digits per byte, most
/// significant nibble first.
pub open spec fn hex_text(bytes: Seq<u8>) -> Seq<char>
    decreases bytes.len(),
{
    if bytes.len() == 0 {
        Seq::empty()
    } else {
        let b = bytes.last();
        hex_text(bytes.drop_last()).push(hex_digit_char((b / 16) as nat)).push(
            hex_digit_char((b % 16) as nat),
        )
    }
}

/// Calls `hex::encode`. Trusted: the crate documents its output as the
/// lowercase hexadecimal text of the input, two digits per byte.
#[verifier::external_body]
pub(crate) fn hex_encode(bytes: &[u8]) -> (text: String)
    ensures
        text@ == hex_text(bytes@),
{
    hex::encode(bytes)
}

/// The value of an ASCII hexadecimal digit of either case, if `b` is one.
pub open spec fn hex_digit_value(b: u8) -> Option<u8> {
    if 0x30 <= b <= 0x39 {
        Some((b - 0x30) as u8)
    } else if 0x41 <= b <= 0x46 {
        Some((b - 0x41 + 10) as u8)
    } else if 0x61 <= b <= 0x66 {
        Some((b - 0x61 + 10) as u8)
    } else {
        None
    }
}

/// Hex text: an even number of bytes, each an ASCII hexadecimal digit.
pub open spec fn hex_well_formed(text: Seq<u8>) -> bool {
    &&& text.len() % 2 == 0
    &&& forall|i: int| 0 <= i < text.len() ==> (#[trigger] hex_digit_value(text[i])) is Some
}

/// The byte that two hexadecimal digits spell, most significant first.
pub open spec fn hex_pair(hi: u8, lo: u8) -> u8 {
    (hex_digit_value(hi)->0 * 16 + hex_digit_value(lo)->0) as u8
}

/// The bytes that well-formed hex text spells, one per pair of digits.
pub open spec fn hex_decoded(text: Seq<u8>) -> Seq<u8> {
    Seq::new(text.len() / 2, |j: int| hex_pair(text[2 * j], text[2 * j + 1]))
}

/// Calls `hex::decode` on the bytes of some text. Trusted: the crate accepts
/// exactly the texts of even length made of hexadecimal digits of either case
/// (`FromHex for Vec<u8>`: `OddLength`, then `val` on each byte), and decodes
/// each pair as `high << 4 | low`.
#[verifier::external_body]
pub(crate) fn hex_decode(text: &[u8]) -> (res: Option<Vec<u8>>)
    ensures
        res is Some <==> hex_well_formed(text@),
        res matches Some(v) ==> v@ == hex_decoded(text@),
{
    hex::decode(text).ok()
}

/// Fills 32 bytes from the operating system's random source
/// (`rand::rngs::OsRng::fill_bytes`). Nothing is stated of the bytes.
#[verifier::external_body]
pub(crate) fn random_bytes32() -> (bytes: [u8; 32]) {
    let mut out = [0u8; 32];
    rand::rngs::OsRng.fill_bytes(&mut out);
    out
}

/// Decimal digits (ASCII) of a natural number.
pub open spec fn decimal_digits(n: nat) -> Seq<u8>
    decreases n,
{
    if n < 10 {
        seq![(48 + n) as u8]
    } else {
        decimal_digits(n / 10).push((48 + n % 10) as u8)
    }
}

/// The error type of `serde_json`, which `serde_jcs` reports.
#[verifier::external_type_specification]
#[verifier::external_body]
pub struct ExJsonError(JsonError);

/// What RFC 8785 canonical serialization (the `serde_jcs` crate) writes for an
/// unsigned 64-bit integer: the ECMAScript rendering of its nearest double.
pub uninterp spec fn jcs_u64_spec(n: u64) -> Seq<u8>;

/// Calls `serde_jcs::to_vec` on an unsigned integer. Trusted: the result is the
/// crate's canonical number text for `n`; below 2^53 every integer is a double
/// exactly, and the crate then writes its plain decimal digits. Serializing a
/// number into a vector never fails in the crate's source.
#[verifier::external_body]
pub(crate) fn jcs_u64(n: u64) -> (res: Result<Vec<u8>, JsonError>)
    ensures
        res is Ok,
        res matches Ok(text) ==> text@ == jcs_u64_spec(n),
        res matches Ok(text) ==> (n < 0x20_0000_0000_0000 ==> text@ == decimal_digits(n as nat)),
{
    serde_jcs::to_vec(&n)
}

/// Calls `serde_jcs::to_vec` on a string slice. Trusted: the crate writes the
/// JSON string literal of the text's UTF-8 bytes, escaped as its JCS formatter
/// and `serde_json`'s escape table do (quote and backslash escaped, the short
/// escapes `\b \t \n \f \r`, other control bytes as `\u00xx` with lowercase
/// hex, every other byte copied). Serializing a string into a vector never
/// fails in the crate's source.
#[verifier::external_body]
pub(crate) fn jcs_str(s: &str) -> (res: Result<Vec<u8>, JsonError>)
    ensures
        res is Ok,
        res matches Ok(text) ==> text@ == json_quoted(s.spec_bytes()),
{
    serde_jcs::to_vec(s)
}

} // verus!
