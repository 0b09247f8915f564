//! Text helpers: UTF-8 validation and the hexadecimal form of a byte.

use vstd::prelude::*;
use vstd::utf8::*;

verus! {

/// The sixteen hexadecimal digits, lower case.
pub open spec fn hex_digits() -> Seq<char> {
    seq!['0', '1', '2', '3', '4', '5', '6', '7', '8', '9', 'a', 'b', 'c', 'd', 'e', 'f']
}

/// A byte in hexadecimal with the prefix `0x`, lower case, without leading
/// zeros: `0x5`, `0xff`.
pub open spec fn hex_text(v: u8) -> Seq<char> {
    if v < 16 {
        seq!['0', 'x', hex_digits()[v as int]]
    } else {
        seq!['0', 'x', hex_digits()[v as int / 16], hex_digits()[v as int % 16]]
    }
}

/// `format!` with `{:#x}` on a `u8`: the prefix `0x`, then the value in
/// lower-case hexadecimal digits without leading zeros.
#[verifier::external_body]
pub(crate) fn format_hex(v: u8) -> (s: String)
    ensures
        s@ == hex_text(v),
{
    format!("{:#x}", v)
}

/// `String::from_utf8`: succeeds exactly on valid UTF-8, and the string it
/// returns holds the bytes it was given.
#[verifier::external_body]
pub(crate) fn string_from_utf8(bytes: Vec<u8>) -> (r: Option<String>)
    ensures
        r is Some <==> valid_utf8(bytes@),
        r matches Some(s) ==> encode_utf8(s@) == bytes@,
{
    match String::from_utf8(bytes) {
        Ok(s) => Some(s),
        Err(_) => None,
    }
}

/// `prefix` followed by the hexadecimal form of `v`.
pub fn with_hex(prefix: &str, v: u8) -> (s: String)
    ensures
        s@ == prefix@ + hex_text(v),
{
    let hex = format_hex(v);
    let mut s = prefix.to_owned();
    s.append(hex.as_str());
    s
}

} // verus!
