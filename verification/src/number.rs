//! Numbers as text: integer literals as they are read, decimal numerals as
//! they are written.

use vstd::prelude::*;

verus! {

/// Whether `c` is one of the ten decimal digits.
pub open spec fn is_digit(c: char) -> bool {
    '0' <= c <= '9'
}

/// The number that the digit `c` stands for.
pub open spec fn digit_value(c: char) -> nat
    recommends
        is_digit(c),
{
    (c as u32 - '0' as u32) as nat
}

/// Whether `s` is a numeral: one decimal digit or more, and nothing else.
pub open spec fn is_numeral(s: Seq<char>) -> bool {
    &&& s.len() > 0
    &&& forall|i: int| 0 <= i < s.len() ==> is_digit(#[trigger] s[i])
}

/// The number that the digits of `s` write in base ten.
pub open spec fn numeral_value(s: Seq<char>) -> nat
    decreases s.len(),
{
    if s.len() == 0 {
        0
    } else {
        10 * numeral_value(s.drop_last()) + digit_value(s.last())
    }
}

/// The integer that `s` writes, where it is a numeral with at most one sign,
/// `+` or `-`, before it.
pub open spec fn literal_value(s: Seq<char>) -> Option<int> {
    if s.len() > 0 && s[0] == '-' {
        if is_numeral(s.drop_first()) {
            Some(-(numeral_value(s.drop_first()) as int))
        } else {
            None
        }
    } else if s.len() > 0 && s[0] == '+' {
        if is_numeral(s.drop_first()) {
            Some(numeral_value(s.drop_first()) as int)
        } else {
            None
        }
    } else if is_numeral(s) {
        Some(numeral_value(s) as int)
    } else {
        None
    }
}

/// The `i64` that `s` writes, if it writes an integer and that integer fits.
pub open spec fn parse_i64(s: Seq<char>) -> Option<i64> {
    match literal_value(s) {
        Some(v) => if i64::MIN <= v <= i64::MAX {
            Some(v as i64)
        } else {
            None
        },
        None => None,
    }
}

/// Reads `token` as a signed integer literal.
pub fn parse_number(token: &str) -> (r: Option<i64>)
    ensures
        r == parse_i64(token@),
{
    let mut first = true;
    let mut signed = false;
    let mut negative = false;
    let mut any = false;
    let mut over = false;
    let mut acc: u128 = 0;
    let ghost mut digits: Seq<char> = Seq::empty();
    for c in it: token.chars()
        invariant
            it.seq() == token@,
            first == (it.index() == 0),
            signed ==> it.index() >= 1 && (token@[0] == '-' || token@[0] == '+'),
            !signed && it.index() >= 1 ==> token@[0] != '-' && token@[0] != '+',
            negative == (signed && token@[0] == '-'),
            digits == if signed {
                token@.subrange(1, it.index() as int)
            } else {
                token@.take(it.index() as int)
            },
            forall|i: int| 0 <= i < digits.len() ==> is_digit(#[trigger] digits[i]),
            any == (digits.len() > 0),
            !over ==> acc == numeral_value(digits) && acc <= 0x8000_0000_0000_0000,
            !over && !negative ==> acc <= 0x7fff_ffff_ffff_ffff,
            over && negative ==> numeral_value(digits) > 0x8000_0000_0000_0000,
            over && !negative ==> numeral_value(digits) > 0x7fff_ffff_ffff_ffff,
    {
        let ghost i = it.index() as int;
        if first && (c == '-' || c == '+') {
            signed = true;
            negative = c == '-';
            proof {
                digits = token@.subrange(1, 1);
            }
        } else if c >= '0' && c <= '9' {
            let d = (c as u32 - '0' as u32) as u128;
            proof {
                let longer = digits.push(c);
                assert(longer.drop_last() =~= digits);
                assert(longer =~= if signed {
                    token@.subrange(1, i + 1)
                } else {
                    token@.take(i + 1)
                });
                digits = longer;
            }
            any = true;
            if !over {
                let next = acc * 10 + d;
                if next > 0x8000_0000_0000_0000 || (!negative && next > 0x7fff_ffff_ffff_ffff) {
                    over = true;
                } else {
                    acc = next;
                }
            }
        } else {
            proof {
                if token@[0] == '-' || token@[0] == '+' {
                    assert(token@.drop_first()[i - 1] == c);
                }
            }
            return None;
        }
        first = false;
    }
    proof {
        assert(digits =~= if signed {
            token@.drop_first()
        } else {
            token@
        });
    }
    if !any || over {
        return None;
    }
    if negative {
        Some((-(acc as i128)) as i64)
    } else {
        Some(acc as i64)
    }
}

/// The digit that stands for `d`.
pub open spec fn digit_char(d: nat) -> char
    recommends
        d < 10,
{
    ('0' as u32 + d) as char
}

/// The numeral of `n` in base ten, without leading zeros.
pub open spec fn numeral(n: nat) -> Seq<char>
    decreases n,
{
    if n < 10 {
        seq![digit_char(n)]
    } else {
        numeral(n / 10).push(digit_char(n % 10))
    }
}

/// The decimal text of `v`: its numeral, after a `-` where `v` is negative.
pub open spec fn decimal(v: int) -> Seq<char> {
    if v < 0 {
        seq!['-'] + numeral((-v) as nat)
    } else {
        numeral(v as nat)
    }
}

/// Appends the decimal text of `v` to `out`.
pub fn write_decimal(out: &mut String, v: i64)
    ensures
        final(out)@ == old(out)@ + decimal(v as int),
{
    let ghost magnitude: nat = if v < 0 {
        (-v) as nat
    } else {
        v as nat
    };
    let mut rest: u64 = if v < 0 {
        out.push('-');
        (-(v as i128)) as u64
    } else {
        v as u64
    };
    let ghost start = out@;
    // the digits, lowest first
    let mut low: Vec<char> = Vec::new();
    while rest >= 10
        invariant
            numeral(magnitude) == numeral(rest as nat) + low@.reverse(),
        decreases rest,
    {
        low.push(((rest % 10) as u8 + 48u8) as char);
        rest = rest / 10;
    }
    low.push((rest as u8 + 48u8) as char);
    let mut k = low.len();
    while k > 0
        invariant
            k <= low.len(),
            out@ == start + low@.reverse().take(low.len() - k),
        decreases k,
    {
        k -= 1;
        out.push(low[k]);
        assert(low@.reverse().take(low.len() - k) =~= low@.reverse().take(low.len() - k - 1).push(
            low@[k as int],
        ));
    }
}

/// The text that a list of numbers is shown as: the decimal texts, with a
/// comma and a space between one and the next, in square brackets.
pub open spec fn list_text(items: Seq<i64>) -> Seq<char> {
    seq!['['] + joined(items) + seq![']']
}

/// The decimal texts of `items`, with a comma and a space between one and
/// the next.
pub open spec fn joined(items: Seq<i64>) -> Seq<char>
    decreases items.len(),
{
    if items.len() == 0 {
        Seq::empty()
    } else if items.len() == 1 {
        decimal(items[0] as int)
    } else {
        joined(items.drop_last()) + seq![',', ' '] + decimal(items.last() as int)
    }
}

} // verus!
