//! Record identifiers: random (version 4) UUIDs in their hyphenated
//! lower-case text form.
use vstd::prelude::*;

verus! {

/// A lower-case hexadecimal digit.
pub open spec fn is_lower_hex(c: char) -> bool {
    ('0' <= c <= '9') || ('a' <= c <= 'f')
}

/// The hyphenated lower-case text of a version 4 (random) UUID:
/// 36 characters, dashes at positions 8, 13, 18 and 23, lower-case
/// hexadecimal digits elsewhere, the version digit `4` at position 14 and
/// a variant digit `8`, `9`, `a` or `b` at position 19.
pub open spec fn is_uuid_v4_text(s: Seq<char>) -> bool {
    &&& s.len() == 36
    &&& forall|i: int|
        0 <= i < 36 ==> if i == 8 || i == 13 || i == 18 || i == 23 {
            #[trigger] s[i] == '-'
        } else {
            is_lower_hex(s[i])
        }
    &&& s[14] == '4'
    &&& (s[19] == '8' || s[19] == '9' || s[19] == 'a' || s[19] == 'b')
}

/// A fresh random identifier (`uuid::Uuid::new_v4`, rendered by its
/// `Display`, the hyphenated lower-case form). The value is random; what
/// holds of every outcome is its shape: version 4 and the RFC 4122
/// variant. The crate panics only when the operating system's random
/// source fails.
#[verifier::external_body]
pub(crate) fn new_id() -> (s: String)
    ensures
        is_uuid_v4_text(s@),
{
    uuid::Uuid::new_v4().to_string()
}

} // verus!
