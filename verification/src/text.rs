//! Characters and strings: what the interpreter needs of them beyond what
//! the standard library is known to give.

use vstd::prelude::*;
use vstd::std_specs::iter::IteratorSpec;

verus! {

/// `String::push` of the standard library: the character is appended, and
/// the characters before it stay.
pub assume_specification[ String::push ](s: &mut String, ch: char)
    ensures
        final(s)@ == old(s)@.push(ch),
;

/// Whether `a` and `b` hold the same characters.
pub fn same_text(a: &str, b: &str) -> (r: bool)
    ensures
        r == (a@ == b@),
{
    let mut rest = b.chars();
    let ghost mut at: int = 0;
    for c in it: a.chars()
        invariant
            it.seq() == a@,
            at == it.index(),
            at <= b@.len(),
            a@.take(at) == b@.take(at),
            rest.remaining() == b@.skip(at),
            rest.obeys_prophetic_iter_laws(),
    {
        match rest.next() {
            Some(d) => {
                if c != d {
                    return false;
                }
                proof {
                    at = at + 1;
                }
            },
            None => {
                return false;
            },
        }
    }
    assert(a@.take(at) =~= a@);
    rest.next().is_none()
}

/// Whether every character of `s` is an ASCII character.
pub open spec fn is_ascii_text(s: Seq<char>) -> bool {
    forall|i: int| 0 <= i < s.len() ==> (#[trigger] s[i]) as u32 <= 0x7F
}

/// The upper-case form of an ASCII character: the capital for a small
/// letter, the character itself otherwise.
pub open spec fn ascii_capital(c: char) -> char {
    if 'a' <= c <= 'z' {
        (c as u32 - 0x20) as char
    } else {
        c
    }
}

/// The upper-case form of a text that is not all ASCII, as `str::to_uppercase`
/// of the standard library gives it.
pub uninterp spec fn unicode_uppercase(s: Seq<char>) -> Seq<char>;

/// The upper-case form of a text. In an ASCII text each small letter gives
/// way to its capital; for any other text it is what Unicode lays down.
pub open spec fn uppercase(s: Seq<char>) -> Seq<char> {
    if is_ascii_text(s) {
        s.map_values(|c: char| ascii_capital(c))
    } else {
        unicode_uppercase(s)
    }
}

/// `str::to_uppercase` of the standard library. Of an ASCII text it returns
/// the text with `a` to `z` replaced by `A` to `Z`; of any other text, the
/// upper-case form by the Unicode tables, which depends on nothing but the
/// text's characters.
#[verifier::external_body]
pub(crate) fn to_uppercase(s: &str) -> (r: String)
    ensures
        is_ascii_text(s@) ==> r@ == s@.map_values(|c: char| ascii_capital(c)),
        !is_ascii_text(s@) ==> r@ == unicode_uppercase(s@),
{
    s.to_uppercase()
}

/// Whether `n` is a Unicode scalar value: a code point that is no surrogate.
pub open spec fn is_scalar_value(n: int) -> bool {
    0 <= n <= 0xD7FF || 0xE000 <= n <= 0x10FFFF
}

/// `char::from_u32` of the standard library: the character with the code
/// point `i`, where `i` is a Unicode scalar value, and nothing otherwise.
pub assume_specification[ char::from_u32 ](i: u32) -> (r: Option<char>)
    ensures
        r == if is_scalar_value(i as int) {
            Some(i as char)
        } else {
            None::<char>
        },
;

} // verus!
