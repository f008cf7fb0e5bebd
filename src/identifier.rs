//! Blob identifiers: the one a caller supplies, or a fresh random one.

use vstd::prelude::*;

verus! {

/// A lower-case hexadecimal digit.
pub open spec fn is_lower_hex_digit(c: char) -> bool {
    ('0' <= c && c <= '9') || ('a' <= c && c <= 'f')
}

/// The hyphenated lower-case text form of a UUID: 36 characters, hyphens at
/// positions 8, 13, 18 and 23, lower-case hexadecimal digits everywhere else.
pub open spec fn is_hyphenated_uuid(s: Seq<char>) -> bool {
    &&& s.len() == 36
    &&& forall|i: int|
        0 <= i < 36 ==> if i == 8 || i == 13 || i == 18 || i == 23 {
            #[trigger] s[i] == '-'
        } else {
            is_lower_hex_digit(s[i])
        }
}

/// The identifier that a caller supplied and that is used as it stands:
/// present and not empty.
pub open spec fn supplied_identifier(key: Option<String>) -> Option<Seq<char>> {
    match key {
        Some(k) => if k@.len() > 0 {
            Some(k@)
        } else {
            None
        },
        None => None,
    }
}

/// Relies on `uuid::Uuid::new_v4`, which draws a random version-4 UUID, and on
/// `Display` for `uuid::Uuid`, which writes it in the hyphenated lower-case form.
/// It panics only where the operating system's random source fails.
#[verifier::external_body]
fn new_identifier() -> (r: String)
    ensures
        is_hyphenated_uuid(r@),
{
    uuid::Uuid::new_v4().to_string()
}

/// The identifier a write uses: the caller's when supplied and not empty,
/// otherwise a freshly generated random one.
pub fn resolve_identifier(key: Option<String>) -> (r: String)
    ensures
        match supplied_identifier(key) {
            Some(id) => r@ == id,
            None => is_hyphenated_uuid(r@),
        },
{
    match key {
        Some(k) => {
            if k.as_str().unicode_len() > 0 {
                k
            } else {
                new_identifier()
            }
        },
        None => new_identifier(),
    }
}

} // verus!
