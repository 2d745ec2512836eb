//! Hexadecimal RGB color strings such as `"#FF0000"` or `"FF0000"`.

use vstd::prelude::*;

verus! {

/// The string without its leading `#`, if it has one.
pub open spec fn without_hash(s: Seq<char>) -> Seq<char> {
    if s.len() > 0 && s[0] == '#' {
        s.drop_first()
    } else {
        s
    }
}

pub open spec fn is_hex_digit(c: char) -> bool {
    ('0' <= c && c <= '9') || ('a' <= c && c <= 'f') || ('A' <= c && c <= 'F')
}

pub open spec fn hex_digit_value(c: char) -> nat {
    if '0' <= c && c <= '9' {
        (c as nat - '0' as nat) as nat
    } else if 'a' <= c && c <= 'f' {
        (c as nat - 'a' as nat + 10) as nat
    } else {
        (c as nat - 'A' as nat + 10) as nat
    }
}

pub open spec fn all_hex_digits(s: Seq<char>) -> bool {
    forall|i: int| 0 <= i < s.len() ==> is_hex_digit(#[trigger] s[i])
}

/// The number that a sequence of hexadecimal digits denotes, most significant first.
pub open spec fn hex_value(s: Seq<char>) -> nat
    decreases s.len(),
{
    if s.len() == 0 {
        0
    } else {
        hex_value(s.drop_last()) * 16 + hex_digit_value(s.last())
    }
}

/// 16 to the power `n`.
pub open spec fn pow16(n: nat) -> nat
    decreases n,
{
    if n == 0 {
        1
    } else {
        16 * pow16((n - 1) as nat)
    }
}

/// The color that a string denotes: `RRGGBB` or `#RRGGBB`, six hex digits in
/// either case. Any other string denotes no color.
pub open spec fn hex_color(s: Seq<char>) -> Option<u32> {
    let d = without_hash(s);
    if d.len() == 6 && all_hex_digits(d) {
        Some(hex_value(d) as u32)
    } else {
        None
    }
}

fn digit_value(c: char) -> (r: Option<u32>)
    ensures
        r is Some <==> is_hex_digit(c),
        r is Some ==> r->0 as nat == hex_digit_value(c) && r->0 < 16,
{
    if '0' <= c && c <= '9' {
        Some((c as u32) - ('0' as u32))
    } else if 'a' <= c && c <= 'f' {
        Some((c as u32) - ('a' as u32) + 10)
    } else if 'A' <= c && c <= 'F' {
        Some((c as u32) - ('A' as u32) + 10)
    } else {
        None
    }
}

/// Parses a color written `RRGGBB` or `#RRGGBB`. Any other string gives
/// `None`; it is never an error.
pub fn parse_hex_color(text: &str) -> (r: Option<u32>)
    ensures
        r == hex_color(text@),
        r is Some ==> r->0 <= 0xFF_FFFF,
{
    let n = text.unicode_len();
    let start: usize = if n > 0 && text.get_char(0) == '#' {
        1
    } else {
        0
    };
    let ghost digits = without_hash(text@);
    assert(digits =~= text@.subrange(start as int, n as int));
    if n - start != 6 {
        return None;
    }
    proof {
        reveal_with_fuel(pow16, 7);
    }
    let mut acc: u64 = 0;
    let mut i: usize = start;
    while i < n
        invariant
            n == text@.len(),
            start <= i <= n,
            n - start == 6,
            digits == without_hash(text@),
            digits =~= text@.subrange(start as int, n as int),
            all_hex_digits(digits.take(i - start)),
            acc as nat == hex_value(digits.take(i - start)),
            acc < pow16((i - start) as nat),
            pow16(6) == 16_777_216,
        decreases n - i,
    {
        let c = text.get_char(i);
        match digit_value(c) {
            None => {
                assert(digits[i - start] == c);
                assert(!all_hex_digits(digits));
                return None;
            },
            Some(d) => {
                proof {
                    let t = digits.take(i - start + 1);
                    assert(t.drop_last() =~= digits.take(i - start));
                    assert(t.last() == c);
                    let k = (i - start) as nat;
                    assert(pow16(k + 1) == 16 * pow16(k));
                    assert(pow16(k) <= pow16(5)) by {
                        reveal_with_fuel(pow16, 7);
                    }
                    assert(acc * 16 + d < 16 * pow16(k)) by (nonlinear_arith)
                        requires
                            acc < pow16(k),
                            d < 16,
                    ;
                }
                acc = acc * 16 + d as u64;
                i = i + 1;
            },
        }
    }
    assert(digits.take(i - start) =~= digits);
    Some(acc as u32)
}

} // verus!
