//! Fresh identifiers for new objects.

use vstd::prelude::*;

verus! {

/// `c` is a lowercase hexadecimal digit.
pub open spec fn is_lower_hex(c: char) -> bool {
    ('0' <= c && c <= '9') || ('a' <= c && c <= 'f')
}

/// `s` is the hyphenated lowercase text of a random (version 4, RFC 4122
/// variant) UUID: 36 characters, hexadecimal digits in groups of
/// 8-4-4-4-12 joined by hyphens, the version digit `4`, and a variant digit
/// among `8`, `9`, `a`, `b`.
pub open spec fn is_v4_uuid_text(s: Seq<char>) -> bool {
    &&& s.len() == 36
    &&& forall|i: int|
        0 <= i < 36 ==> if i == 8 || i == 13 || i == 18 || i == 23 {
            #[trigger] s[i] == '-'
        } else {
            is_lower_hex(s[i])
        }
    &&& s[14] == '4'
    &&& (s[19] == '8' || s[19] == '9' || s[19] == 'a' || s[19] == 'b')
}

/// `uuid::Uuid::new_v4`, rendered with `to_string`: a random identifier.
/// The contract claims the form that the `uuid` source gives it: `new_v4`
/// sets the version and variant bits, and `Display` writes the hyphenated
/// lowercase form. Which identifier comes back is random and left unsaid.
#[verifier::external_body]
pub(crate) fn fresh_id() -> (id: String)
    ensures
        is_v4_uuid_text(id@),
{
    uuid::Uuid::new_v4().to_string()
}

} // verus!
