//! The library's trusted boundary to outside crates: each item here makes one
//! outside call, and its contract is believed, not proved.

use vstd::prelude::*;
use sha2::Digest;

verus! {

/// The hyphenated UUID form: 36 characters, hyphens at 8, 13, 18 and 23,
/// lowercase hexadecimal digits everywhere else.
pub open spec fn hyphenated_uuid_text(s: Seq<char>) -> bool {
    &&& s.len() == 36
    &&& forall|i: int|
        0 <= i < 36 ==> if i == 8 || i == 13 || i == 18 || i == 23 {
            s[i] == '-'
        } else {
            crate::text::is_lower_hex(#[trigger] s[i])
        }
}

/// `uuid::Uuid::new_v4()` rendered with `to_string()`: a random UUID in the
/// hyphenated form, which uuid's `Display` writes as 8-4-4-4-12 lowercase
/// hexadecimal digits. Nothing is claimed of the value beyond that form: it
/// is random.
#[verifier::external_body]
pub fn new_uuid_v4() -> (r: String)
    ensures
        r@.len() == 36,
        hyphenated_uuid_text(r@),
{
    uuid::Uuid::new_v4().to_string()
}

/// The lowercase hexadecimal SHA-256 digest of the UTF-8 bytes of a text.
pub uninterp spec fn sha256_hex_of(material: Seq<char>) -> Seq<char>;

/// `sha2::Sha256::digest(material.as_bytes())` formatted with `{:x}`. The
/// result is named `sha256_hex_of(material)`; generic-array's `LowerHex`
/// writes two lowercase hex digits per byte of the 32-byte digest.
#[verifier::external_body]
pub fn sha256_hex(material: &str) -> (r: String)
    ensures
        r@ == sha256_hex_of(material@),
        r@.len() == 64,
        forall|i: int| 0 <= i < 64 ==> crate::text::is_lower_hex(#[trigger] r@[i]),
{
    format!("{:x}", sha2::Sha256::digest(material.as_bytes()))
}

/// A lowercase hexadecimal digit for `n < 16`.
pub open spec fn lower_hex_digit(n: nat) -> char {
    if n < 10 {
        (48 + n) as char
    } else {
        (87 + n) as char
    }
}

/// How serde_json writes one character inside a string literal: quote and
/// backslash escaped, `\b \t \n \f \r` for their controls, any other
/// character below 0x20 as `\u00XX` in lowercase hex, everything else as is.
pub open spec fn json_escape_char(c: char) -> Seq<char> {
    let u = c as u32;
    if c == '"' {
        seq!['\\', '"']
    } else if c == '\\' {
        seq!['\\', '\\']
    } else if u == 8 {
        seq!['\\', 'b']
    } else if u == 9 {
        seq!['\\', 't']
    } else if u == 10 {
        seq!['\\', 'n']
    } else if u == 12 {
        seq!['\\', 'f']
    } else if u == 13 {
        seq!['\\', 'r']
    } else if u < 0x20 {
        seq!['\\', 'u', '0', '0', lower_hex_digit((u / 16) as nat), lower_hex_digit((u % 16) as nat)]
    } else {
        seq![c]
    }
}

/// The escaped characters of a text, in order.
pub open spec fn json_escape(s: Seq<char>) -> Seq<char>
    decreases s.len(),
{
    if s.len() == 0 {
        Seq::empty()
    } else {
        json_escape(s.drop_last()) + json_escape_char(s.last())
    }
}

/// The JSON string literal serde_json writes for a text: the escaped text
/// between double quotes.
pub open spec fn json_string_literal(s: Seq<char>) -> Seq<char> {
    seq!['"'] + json_escape(s) + seq!['"']
}

/// `serde_json::to_string(s)` for a `&str`: serde_json's
/// `format_escaped_str` writes the quotes and each byte through its ESCAPE
/// table, which is `json_string_literal(s)`; serializing a `str` into
/// memory cannot fail, so the empty fallback never applies.
#[verifier::external_body]
pub fn json_quote(s: &str) -> (r: String)
    ensures
        r@ == json_string_literal(s@),
{
    serde_json::to_string(s).unwrap_or_default()
}

} // verus!
