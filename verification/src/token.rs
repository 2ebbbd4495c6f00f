//! Session tokens: the random identities under which sessions are kept.

use vstd::prelude::*;

verus! {

/// Whether a character is a digit of lower-case hexadecimal.
pub open spec fn is_lower_hex(c: char) -> bool {
    ('0' <= c && c <= '9') || ('a' <= c && c <= 'f')
}

/// The shape of a fresh token: 36 characters, hyphens after the 8th, 12th,
/// 16th and 20th digit, lower-case hexadecimal digits everywhere else, the
/// 13th digit a 4 and the 17th one of 8, 9, a and b.
pub open spec fn is_token(text: Seq<char>) -> bool {
    &&& text.len() == 36
    &&& forall|i: int|
        0 <= i < 36 ==> if i == 8 || i == 13 || i == 18 || i == 23 {
            #[trigger] text[i] == '-'
        } else {
            is_lower_hex(text[i])
        }
    &&& text[14] == '4'
    &&& (text[19] == '8' || text[19] == '9' || text[19] == 'a' || text[19] == 'b')
}

/// A fresh random token.
///
/// Trusted: the body calls `uuid::Uuid::new_v4` and turns the result into
/// text with its `Display`. `new_v4` draws 128 random bits and forces the
/// version digit to 4 and the two highest bits of the variant digit to 1
/// and 0; `Display` writes the hyphenated lower-case form, which
/// [`is_token`] describes. Which token comes out is left open: nothing
/// says that it differs from any other. `new_v4` panics when the operating
/// system gives no random bytes.
#[verifier::external_body]
pub(crate) fn new_token() -> (token: String)
    ensures
        is_token(token@),
{
    uuid::Uuid::new_v4().to_string()
}

} // verus!
