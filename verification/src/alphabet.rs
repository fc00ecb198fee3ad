//! The candidate glyphs: the halfwidth katakana block followed by the
//! printable ASCII glyphs, two character classes merged into one set
//! that the engine treats as opaque.

use vstd::prelude::*;

verus! {

/// Number of glyphs in the candidate set: 56 halfwidth katakana and 94
/// printable ASCII characters.
pub open spec fn alphabet_len() -> int {
    150
}

/// Code point of the `n`-th glyph of the candidate set: the halfwidth
/// katakana run first, then the printable ASCII run.
pub open spec fn alphabet_code(n: int) -> int {
    if n < 56 {
        0xff66 + n
    } else {
        0x21 + (n - 56)
    }
}

/// Relies on `char::from_u32`: for a code point outside the surrogate
/// range and below the Unicode ceiling it returns the character with
/// exactly that code point.
#[verifier::external_body]
fn char_from_code(c: u32) -> (r: char)
    requires
        0x21 <= c <= 0x7e || 0xff66 <= c <= 0xff9d,
    ensures
        r as u32 == c,
{
    char::from_u32(c).unwrap()
}

/// The full candidate set, glyph by glyph: katakana first, ASCII after,
/// each pinned to its code point.
pub fn default_alphabet() -> (r: Vec<char>)
    ensures
        r@.len() == alphabet_len(),
        forall|i: int| 0 <= i < r@.len() ==> (#[trigger] r@[i]) as u32 == alphabet_code(i),
{
    let mut v: Vec<char> = Vec::new();
    let mut c: u32 = 0xff66;
    while c <= 0xff9d
        invariant
            0xff66 <= c <= 0xff9e,
            v@.len() == c - 0xff66,
            forall|i: int| 0 <= i < v@.len() ==> (#[trigger] v@[i]) as u32 == alphabet_code(i),
        decreases 0xff9e - c,
    {
        v.push(char_from_code(c));
        c = c + 1;
    }
    let mut a: u32 = 0x21;
    while a <= 0x7e
        invariant
            0x21 <= a <= 0x7f,
            v@.len() == 56 + (a - 0x21),
            forall|i: int| 0 <= i < v@.len() ==> (#[trigger] v@[i]) as u32 == alphabet_code(i),
        decreases 0x7f - a,
    {
        v.push(char_from_code(a));
        a = a + 1;
    }
    v
}

} // verus!
