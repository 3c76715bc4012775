//! Fresh identifiers.

use vstd::prelude::*;

verus! {

/// `c` is one of `0` to `9` or `a` to `f`.
pub open spec fn is_lower_hex_digit(c: char) -> bool {
    ('0' <= c && c <= '9') || ('a' <= c && c <= 'f')
}

/// The shape of a UUID in its usual text form: 36 characters, hyphens at
/// positions 8, 13, 18 and 23, lowercase hexadecimal digits elsewhere.
pub open spec fn is_uuid_text(text: Seq<char>) -> bool {
    &&& text.len() == 36
    &&& forall|i: int|
        0 <= i < 36 ==> if i == 8 || i == 13 || i == 18 || i == 23 {
            #[trigger] text[i] == '-'
        } else {
            is_lower_hex_digit(#[trigger] text[i])
        }
}

/// Draws a random UUID (`uuid::Uuid::new_v4`) and renders it with its
/// `Display`, which writes the hyphenated lowercase form. Which UUID comes is
/// left open; only the shape of the text is stated. `new_v4` stops the
/// program if the system gives it no random bytes.
#[verifier::external_body]
pub(crate) fn new_uuid_text() -> (r: String)
    ensures
        is_uuid_text(r@),
{
    uuid::Uuid::new_v4().to_string()
}

} // verus!
