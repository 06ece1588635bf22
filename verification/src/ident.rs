//! Syntactic validity of record identifiers: 36 characters in the
//! hyphenated `8-4-4-4-12` hexadecimal shape, and a source of fresh ones.

use vstd::prelude::*;

verus! {

/// A hexadecimal digit, either case.
pub open spec fn is_hex_digit(c: char) -> bool {
    ('0' as u32 <= c as u32 && c as u32 <= '9' as u32) || ('a' as u32 <= c as u32 && c as u32
        <= 'f' as u32) || ('A' as u32 <= c as u32 && c as u32 <= 'F' as u32)
}

/// What the character at position `i` of a well-formed identifier must be:
/// a hyphen at the four separator positions, a hexadecimal digit elsewhere.
pub open spec fn uuid_char_ok(s: Seq<char>, i: int) -> bool {
    if i == 8 || i == 13 || i == 18 || i == 23 {
        s[i] == '-'
    } else {
        is_hex_digit(s[i])
    }
}

/// A syntactically valid identifier: the hyphenated `8-4-4-4-12` form.
pub open spec fn is_uuid(s: Seq<char>) -> bool {
    &&& s.len() == 36
    &&& forall|i: int| 0 <= i < 36 ==> #[trigger] uuid_char_ok(s, i)
}

/// Decides whether one character is a hexadecimal digit.
fn hex_digit(c: char) -> (b: bool)
    ensures
        b == is_hex_digit(c),
{
    let u = c as u32;
    ('0' as u32 <= u && u <= '9' as u32) || ('a' as u32 <= u && u <= 'f' as u32) || ('A' as u32 <= u
        && u <= 'F' as u32)
}

/// Decides whether `s` is a syntactically valid identifier.
pub fn is_uuid_str(s: &str) -> (b: bool)
    ensures
        b == is_uuid(s@),
{
    let n = s.unicode_len();
    if n != 36 {
        return false;
    }
    let mut i: usize = 0;
    while i < 36
        invariant
            s@.len() == 36,
            i <= 36,
            forall|j: int| 0 <= j < i ==> #[trigger] uuid_char_ok(s@, j),
        decreases 36 - i,
    {
        let c = s.get_char(i);
        let ok = if i == 8 || i == 13 || i == 18 || i == 23 {
            c == '-'
        } else {
            hex_digit(c)
        };
        if !ok {
            assert(!uuid_char_ok(s@, i as int));
            return false;
        }
        i += 1;
    }
    true
}

/// Relies on `uuid::Uuid::new_v4` and the `Display` form of `uuid::Uuid`:
/// a freshly drawn random identifier, rendered as 36 lowercase hexadecimal
/// characters and hyphens in the `8-4-4-4-12` pattern. The value is random,
/// so nothing beyond its shape is promised.
#[verifier::external_body]
pub(crate) fn fresh_uuid() -> (r: String)
    ensures
        is_uuid(r@),
{
    uuid::Uuid::new_v4().to_string()
}

} // verus!
