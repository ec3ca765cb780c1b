//! Identifier generation: a short public identifier for each shared
//! document, cut from a fresh random UUID. Uniqueness is not checked here;
//! it is enforced only by the store at insertion time.

use vstd::prelude::*;
use vstd::string::StrSliceExecFns;

verus! {

/// The number of characters in a short document identifier.
pub const SHORT_ID_LEN: usize = 7;

/// A lowercase hexadecimal digit.
pub open spec fn is_lower_hex_digit(c: char) -> bool {
    ('0' <= c && c <= '9') || ('a' <= c && c <= 'f')
}

/// Every character of `s` is a lowercase hexadecimal digit.
pub open spec fn is_short_id(s: Seq<char>) -> bool {
    &&& s.len() == SHORT_ID_LEN
    &&& forall|i: int| 0 <= i < s.len() ==> is_lower_hex_digit(s[i])
}

/// Relies on `uuid::Uuid::new_v4` and the `Display` of `uuid::Uuid`: a
/// fresh random UUID formatted as lowercase hyphenated hex, thirty-six
/// characters with the first hyphen at index eight, so the first eight
/// characters are lowercase hex digits. The value is random: nothing
/// relates two calls.
#[verifier::external_body]
fn generate_uuid_string() -> (r: String)
    ensures
        r@.len() == 36,
        forall|i: int| 0 <= i < 8 ==> is_lower_hex_digit(r@[i]),
{
    uuid::Uuid::new_v4().to_string()
}

/// A short identifier: the leading characters of a fresh random UUID.
pub fn generate_short_uuid() -> (r: String)
    ensures
        is_short_id(r@),
{
    let full = generate_uuid_string();
    let prefix = full.as_str().substring_char(0, SHORT_ID_LEN);
    prefix.to_owned()
}

} // verus!
