//! The textual forms of a 128-bit identifier, as mathematical sequences of
//! characters, and the fact that the canonical form reads back as its value.
use vstd::prelude::*;

verus! {

/// `16` to the power `n`.
pub open spec fn pow16(n: nat) -> nat
    decreases n,
{
    if n == 0 {
        1
    } else {
        16 * pow16((n - 1) as nat)
    }
}

/// The lowercase hexadecimal digit for `d`, where `d < 16`.
pub open spec fn hex_char(d: nat) -> char {
    seq!['0', '1', '2', '3', '4', '5', '6', '7', '8', '9', 'a', 'b', 'c', 'd', 'e', 'f'][d as int]
}

/// The value of a hexadecimal digit of either case.
pub open spec fn hex_digit_value(c: char) -> Option<nat> {
    if '0' <= c && c <= '9' {
        Some((c as int - '0' as int) as nat)
    } else if 'a' <= c && c <= 'f' {
        Some((c as int - 'a' as int + 10) as nat)
    } else if 'A' <= c && c <= 'F' {
        Some((c as int - 'A' as int + 10) as nat)
    } else {
        None
    }
}

/// Every character of `s` is a hexadecimal digit.
pub open spec fn all_hex(s: Seq<char>) -> bool {
    forall|i: int| 0 <= i < s.len() ==> (#[trigger] hex_digit_value(s[i])) is Some
}

/// The number that the hexadecimal digits `s` spell, most significant first.
pub open spec fn hex_seq_value(s: Seq<char>) -> nat
    decreases s.len(),
{
    if s.len() == 0 {
        0
    } else {
        hex_seq_value(s.drop_last()) * 16 + hex_digit_value(s.last()).unwrap_or(0)
    }
}

/// The `n` lowest hexadecimal digits of `x`, lowercase, most significant first.
pub open spec fn hex_digits(x: nat, n: nat) -> Seq<char>
    decreases n,
{
    if n == 0 {
        Seq::empty()
    } else {
        hex_digits(x / 16, (n - 1) as nat).push(hex_char(x % 16))
    }
}

/// The canonical text of `v`: 32 lowercase hexadecimal digits in groups of
/// 8, 4, 4, 4 and 12, joined by hyphens.
pub open spec fn canonical_text(v: u128) -> Seq<char> {
    let d = hex_digits(v as nat, 32);
    d.subrange(0, 8) + seq!['-'] + d.subrange(8, 12) + seq!['-'] + d.subrange(12, 16) + seq!['-']
        + d.subrange(16, 20) + seq!['-'] + d.subrange(20, 32)
}

/// 32 hexadecimal digits without separators.
pub open spec fn simple_value(s: Seq<char>) -> Option<u128> {
    if s.len() == 32 && all_hex(s) {
        Some(hex_seq_value(s) as u128)
    } else {
        None
    }
}

/// 36 characters: hexadecimal digits with hyphens at positions 8, 13, 18, 23.
pub open spec fn hyphenated_value(s: Seq<char>) -> Option<u128> {
    if s.len() == 36 && s[8] == '-' && s[13] == '-' && s[18] == '-' && s[23] == '-' {
        simple_value(
            s.subrange(0, 8) + s.subrange(9, 13) + s.subrange(14, 18) + s.subrange(19, 23)
                + s.subrange(24, 36),
        )
    } else {
        None
    }
}

/// `c` is the letter given in either of its two cases.
pub open spec fn same_letter(c: char, lower: char, upper: char) -> bool {
    c == lower || c == upper
}

/// `urn:uuid:` in any mix of ASCII cases.
pub open spec fn is_urn_prefix(p: Seq<char>) -> bool {
    &&& p.len() == 9
    &&& same_letter(p[0], 'u', 'U')
    &&& same_letter(p[1], 'r', 'R')
    &&& same_letter(p[2], 'n', 'N')
    &&& p[3] == ':'
    &&& same_letter(p[4], 'u', 'U')
    &&& same_letter(p[5], 'u', 'U')
    &&& same_letter(p[6], 'i', 'I')
    &&& same_letter(p[7], 'd', 'D')
    &&& p[8] == ':'
}

/// The value that a text of identifier syntax spells, if it has that syntax:
/// the simple form, the hyphenated form, the hyphenated form in braces, or
/// the hyphenated form after a `urn:uuid:` prefix. Digits may be of either
/// case.
pub open spec fn text_value(s: Seq<char>) -> Option<u128> {
    if s.len() == 32 {
        simple_value(s)
    } else if s.len() == 36 {
        hyphenated_value(s)
    } else if s.len() == 38 && s[0] == '{' && s[37] == '}' {
        hyphenated_value(s.subrange(1, 37))
    } else if s.len() == 45 && is_urn_prefix(s.subrange(0, 9)) {
        hyphenated_value(s.subrange(9, 45))
    } else {
        None
    }
}

/// The digits of `x` are hexadecimal digits and spell `x` back.
pub proof fn lemma_hex_digits_value(x: nat, n: nat)
    requires
        x < pow16(n),
    ensures
        hex_digits(x, n).len() == n,
        all_hex(hex_digits(x, n)),
        hex_seq_value(hex_digits(x, n)) == x,
    decreases n,
{
    if n == 0 {
    } else {
        let p = pow16((n - 1) as nat);
        assert(x / 16 < p) by (nonlinear_arith)
            requires
                x < 16 * p,
        ;
        lemma_hex_digits_value(x / 16, (n - 1) as nat);
        let d = hex_digits(x, n);
        let rest = hex_digits(x / 16, (n - 1) as nat);
        assert(d.drop_last() =~= rest);
        let r = x % 16;
        assert(r < 16);
        assert(hex_digit_value(hex_char(r)) == Some(r));
        assert(x == (x / 16) * 16 + x % 16) by (nonlinear_arith);
        assert forall|i: int| 0 <= i < d.len() implies (#[trigger] hex_digit_value(d[i])) is Some by {
            if i < d.len() - 1 {
                assert(d[i] == rest[i]);
            }
        }
    }
}

/// The canonical text of every 128-bit value reads back as that value.
pub proof fn lemma_canonical_text_value(v: u128)
    ensures
        text_value(canonical_text(v)) == Some(v),
        canonical_text(v).len() == 36,
{
    assert(pow16(32) == 0x1_0000_0000_0000_0000_0000_0000_0000_0000) by {
        reveal_with_fuel(pow16, 33);
    }
    lemma_hex_digits_value(v as nat, 32);
    let d = hex_digits(v as nat, 32);
    let s = canonical_text(v);
    assert(s.len() == 36);
    assert(s[8] == '-' && s[13] == '-' && s[18] == '-' && s[23] == '-');
    let stripped = s.subrange(0, 8) + s.subrange(9, 13) + s.subrange(14, 18) + s.subrange(19, 23)
        + s.subrange(24, 36);
    assert(stripped =~= d);
    assert(hyphenated_value(s) == Some(v));
}

} // verus!
