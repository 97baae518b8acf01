//! Fixed-width lower-case hexadecimal and plain decimal renderings of
//! integers, as the protocol writes them into identifiers and query strings.

use vstd::prelude::*;

verus! {

/// `16` to the power `width`.
pub open spec fn pow16(width: nat) -> nat
    decreases width,
{
    if width == 0 {
        1
    } else {
        16 * pow16((width - 1) as nat)
    }
}

/// The lower-case hexadecimal digit of `d` (for `0 <= d < 16`).
pub open spec fn hex_digit(d: nat) -> char {
    if d < 10 {
        (48 + d) as char
    } else {
        (87 + d) as char
    }
}

/// The decimal digit of `d` (for `0 <= d < 10`).
pub open spec fn decimal_digit(d: nat) -> char {
    (48 + d) as char
}

/// The last `width` hexadecimal digits of `v`, most significant first,
/// zero-padded: `format!("{:0width$x}", v)` for `v < 16^width`.
pub open spec fn hex_text(v: nat, width: nat) -> Seq<char>
    decreases width,
{
    if width == 0 {
        Seq::empty()
    } else {
        hex_text(v / 16, (width - 1) as nat).push(hex_digit(v % 16))
    }
}

/// The decimal numeral of `n`, without sign or leading zeros: `n.to_string()`.
pub open spec fn decimal_text(n: nat) -> Seq<char>
    decreases n,
{
    if n < 10 {
        seq![decimal_digit(n)]
    } else {
        decimal_text(n / 10).push(decimal_digit(n % 10))
    }
}

/// The value of a numeral written in decimal digits, most significant first.
pub open spec fn decimal_value(s: Seq<char>) -> int
    decreases s.len(),
{
    if s.len() == 0 {
        0
    } else {
        decimal_value(s.drop_last()) * 10 + (s.last() as int - 48)
    }
}

/// Every character of `s` is one of `0`..`9`.
pub open spec fn all_decimal_digits(s: Seq<char>) -> bool {
    forall|i: int| 0 <= i < s.len() ==> '0' <= #[trigger] s[i] <= '9'
}

/// Every character of `s` is one of `0`..`9`, `a`..`f`.
pub open spec fn all_hex_digits(s: Seq<char>) -> bool {
    forall|i: int|
        0 <= i < s.len() ==> ('0' <= #[trigger] s[i] <= '9' || 'a' <= s[i] <= 'f')
}

/// The decimal numeral of `n` is made of digits, starts with no zero unless it
/// is `0`, and reads back as `n`.
pub proof fn lemma_decimal_text_denotes(n: nat)
    ensures
        decimal_text(n).len() >= 1,
        all_decimal_digits(decimal_text(n)),
        decimal_value(decimal_text(n)) == n,
        decimal_text(n)[0] == '0' ==> n == 0,
    decreases n,
{
    let s = decimal_text(n);
    assert(decimal_digit(n % 10) as int == 48 + n % 10);
    if n >= 10 {
        lemma_decimal_text_denotes(n / 10);
        assert(s.drop_last() =~= decimal_text(n / 10));
        assert(s[0] == decimal_text(n / 10)[0]);
        assert(n == (n / 10) * 10 + n % 10);
        assert(s.last() == decimal_digit(n % 10));
        assert(decimal_value(s) == decimal_value(s.drop_last()) * 10 + (s.last() as int - 48));
    } else {
        assert(s.drop_last() =~= Seq::<char>::empty());
        assert(s.last() == decimal_digit(n % 10));
        assert(decimal_value(s) == decimal_value(s.drop_last()) * 10 + (s.last() as int - 48));
    }
}

/// The value of a lower-case hexadecimal digit.
pub open spec fn hex_digit_value(c: char) -> int {
    if c <= '9' {
        c as int - 48
    } else {
        c as int - 87
    }
}

/// The value of a numeral written in lower-case hexadecimal digits, most
/// significant first.
pub open spec fn hex_value(s: Seq<char>) -> int
    decreases s.len(),
{
    if s.len() == 0 {
        0
    } else {
        hex_value(s.drop_last()) * 16 + hex_digit_value(s.last())
    }
}

/// A zero-padded hexadecimal rendering reads back as the number rendered, so
/// two numbers below `16^width` have the same rendering only when they are equal.
pub proof fn lemma_hex_text_denotes(v: nat, width: nat)
    requires
        v < pow16(width),
    ensures
        hex_value(hex_text(v, width)) == v,
    decreases width,
{
    if width == 0 {
        assert(v == 0);
    } else {
        let w1 = (width - 1) as nat;
        assert(v / 16 < pow16(w1)) by (nonlinear_arith)
            requires
                v < 16 * pow16(w1),
        ;
        lemma_hex_text_denotes(v / 16, w1);
        let s = hex_text(v, width);
        assert(s.drop_last() =~= hex_text(v / 16, w1));
        assert(hex_digit(v % 16) as int == if v % 16 < 10 { 48 + v % 16 } else { 87 + v % 16 });
        assert(hex_digit_value(s.last()) == v % 16);
    }
}

/// The hexadecimal rendering has exactly `width` digits.
pub proof fn lemma_hex_text_shape(v: nat, width: nat)
    ensures
        hex_text(v, width).len() == width,
        all_hex_digits(hex_text(v, width)),
    decreases width,
{
    if width > 0 {
        lemma_hex_text_shape(v / 16, (width - 1) as nat);
        let s = hex_text(v, width);
        assert forall|i: int| 0 <= i < s.len() implies ('0' <= #[trigger] s[i] <= '9' || 'a'
            <= s[i] <= 'f') by {
            if i < s.len() - 1 {
                assert(s[i] == hex_text(v / 16, (width - 1) as nat)[i]);
            }
        }
    }
}

fn hex_char(d: u64) -> (c: char)
    requires
        d < 16,
    ensures
        c == hex_digit(d as nat),
{
    if d < 10 {
        ((48 + d) as u8) as char
    } else {
        ((87 + d) as u8) as char
    }
}

/// Appends the last `width` hexadecimal digits of `v`, zero-padded.
pub fn push_hex(out: &mut Vec<char>, v: u64, width: u32)
    requires
        v < pow16(width as nat),
    ensures
        final(out)@ == old(out)@ + hex_text(v as nat, width as nat),
    decreases width,
{
    if width > 0 {
        let w1: u32 = width - 1;
        assert(v / 16 < pow16(w1 as nat)) by (nonlinear_arith)
            requires
                v < 16 * pow16(w1 as nat),
        ;
        push_hex(out, v / 16, w1);
        out.push(hex_char(v % 16));
        assert(out@ =~= old(out)@ + hex_text(v as nat, width as nat));
    } else {
        assert(out@ =~= old(out)@ + hex_text(v as nat, width as nat));
    }
}

/// Appends the decimal numeral of `n`.
pub fn push_decimal(out: &mut Vec<char>, n: u64)
    ensures
        final(out)@ == old(out)@ + decimal_text(n as nat),
    decreases n,
{
    if n >= 10 {
        push_decimal(out, n / 10);
    }
    out.push(((48 + n % 10) as u8) as char);
    assert(out@ =~= old(out)@ + decimal_text(n as nat));
}

/// The decimal numeral of `n`, as a string.
pub fn decimal_string(n: u64) -> (res: String)
    ensures
        res@ == decimal_text(n as nat),
{
    let mut chars: Vec<char> = Vec::new();
    push_decimal(&mut chars, n);
    assert(chars@ =~= decimal_text(n as nat));
    chars_to_string(chars)
}

/// Collects characters into a `String` with std's `FromIterator<char>`; std
/// documents that the string holds exactly those characters, in order.
#[verifier::external_body]
pub(crate) fn chars_to_string(chars: Vec<char>) -> (res: String)
    ensures
        res@ == chars@,
{
    chars.into_iter().collect()
}

} // verus!
