//! Record identifiers: random version-4 UUIDs in their hyphenated text form.

use vstd::prelude::*;

verus! {

/// The four positions at which the hyphenated form carries a `-`.
pub open spec fn is_separator_position(i: int) -> bool {
    i == 8 || i == 13 || i == 18 || i == 23
}

/// A lower-case hexadecimal digit.
pub open spec fn is_lower_hex(c: char) -> bool {
    ('0' <= c && c <= '9') || ('a' <= c && c <= 'f')
}

/// The text of a version-4 UUID: 36 characters, hyphens after the 8th, 12th,
/// 16th and 20th digit, lower-case hexadecimal digits elsewhere, the version
/// digit `4` and a variant digit in `8..=b`.
pub open spec fn is_identifier(s: Seq<char>) -> bool {
    &&& s.len() == 36
    &&& forall|i: int|
        0 <= i < 36 ==> if is_separator_position(i) {
            #[trigger] s[i] == '-'
        } else {
            is_lower_hex(s[i])
        }
    &&& s[14] == '4'
    &&& (s[19] == '8' || s[19] == '9' || s[19] == 'a' || s[19] == 'b')
}

/// Calls `uuid::Uuid::new_v4` and renders the result with its `Display`
/// impl.
///
/// Trusted: every outcome is the hyphenated lower-case text of a UUID whose
/// version and variant bits are those of a random UUID. Nothing is claimed of
/// the 122 random bits; two calls may or may not agree. The call aborts when
/// the operating system cannot supply random bytes.
#[verifier::external_body]
pub(crate) fn random_identifier() -> (id: String)
    ensures
        is_identifier(id@),
{
    uuid::Uuid::new_v4().to_string()
}

/// An identifier is never the empty text.
pub proof fn lemma_identifier_nonempty(s: Seq<char>)
    requires
        is_identifier(s),
    ensures
        s.len() > 0,
{
}

} // verus!
