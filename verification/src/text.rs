//! Number-to-text rendering used by the human-readable labels of the PMIx
//! enumeration and flag types: decimal, upper-case hexadecimal, and
//! zero-padded hexadecimal digits.

use vstd::prelude::*;

verus! {

/// The digit character for a value below 16 (`0`–`9`, then `A`–`F`).
pub open spec fn digit_char(d: nat) -> char {
    if d == 0 { '0' }
    else if d == 1 { '1' }
    else if d == 2 { '2' }
    else if d == 3 { '3' }
    else if d == 4 { '4' }
    else if d == 5 { '5' }
    else if d == 6 { '6' }
    else if d == 7 { '7' }
    else if d == 8 { '8' }
    else if d == 9 { '9' }
    else if d == 10 { 'A' }
    else if d == 11 { 'B' }
    else if d == 12 { 'C' }
    else if d == 13 { 'D' }
    else if d == 14 { 'E' }
    else { 'F' }
}

/// The digits of `n` in base `base` (2..=16), most significant first, with
/// no leading zeros; `0` is written as a single `0`.
pub open spec fn digits_in_base(n: nat, base: nat) -> Seq<char>
    recommends
        2 <= base <= 16,
    decreases n,
{
    if n < base || base < 2 {
        seq![digit_char(n % 16)]
    } else {
        proof {
            assert(n / base < n) by (nonlinear_arith)
                requires
                    n >= base,
                    base >= 2,
            ;
        }
        digits_in_base(n / base, base).push(digit_char(n % base))
    }
}

/// Decimal rendering of `n` (as Rust's `{}` formats an unsigned integer).
pub open spec fn decimal_digits(n: nat) -> Seq<char> {
    digits_in_base(n, 10)
}

/// Upper-case hexadecimal rendering of `n` (as Rust's `{:X}` formats it).
pub open spec fn hex_digits(n: nat) -> Seq<char> {
    digits_in_base(n, 16)
}

/// `d` left-padded with `'0'` to at least `width` characters
/// (as Rust's `{:0width$X}` pads).
pub open spec fn zero_padded(d: Seq<char>, width: nat) -> Seq<char> {
    if d.len() >= width {
        d
    } else {
        Seq::new((width - d.len()) as nat, |i: int| '0') + d
    }
}

/// The number of base-`base` digits of `n` is at least one and grows by one
/// per division.
pub proof fn lemma_digits_len(n: nat, base: nat)
    requires
        2 <= base <= 16,
    ensures
        digits_in_base(n, base).len() >= 1,
        n < base ==> digits_in_base(n, base).len() == 1,
        n >= base ==> digits_in_base(n, base).len() == digits_in_base(n / base, base).len() + 1,
    decreases n,
{
    if n >= base {
        assert(n / base < n) by (nonlinear_arith)
            requires
                n >= base,
                base >= 2,
        ;
        lemma_digits_len(n / base, base);
    }
}

/// The value of a digit character: `0`–`9` by their distance from `0`,
/// and any other character (`A`–`F` for hexadecimal) as 10 plus its
/// distance from `A`.
pub open spec fn char_digit_value(c: char) -> int {
    if '0' <= c && c <= '9' {
        c as int - '0' as int
    } else {
        c as int - 'A' as int + 10
    }
}

/// The number that a sequence of digit characters writes in base `base`,
/// most significant digit first.
pub open spec fn digits_value(s: Seq<char>, base: nat) -> int
    decreases s.len(),
{
    if s.len() == 0 {
        0
    } else {
        digits_value(s.drop_last(), base) * base + char_digit_value(s.last())
    }
}

/// Each digit value below 16 has the character that reads back as it.
pub proof fn lemma_digit_char_reads_back(d: nat)
    requires
        d < 16,
    ensures
        char_digit_value(digit_char(d)) == d,
{
}

/// Reading the rendered digits back gives the number: every character is a
/// digit of the base, the first is `0` only for the number 0, and their
/// value in the base is `n`.
pub proof fn lemma_digits_read_back(n: nat, base: nat)
    requires
        2 <= base <= 16,
    ensures
        digits_value(digits_in_base(n, base), base) == n,
        forall|i: int|
            0 <= i < digits_in_base(n, base).len() ==> 0 <= #[trigger] char_digit_value(
                digits_in_base(n, base)[i],
            ) < base,
        digits_in_base(n, base)[0] == '0' ==> n == 0,
    decreases n,
{
    lemma_digits_len(n, base);
    if n < base {
        lemma_digit_char_reads_back(n);
        assert(n % 16 == n);
        let s = digits_in_base(n, base);
        assert(s == seq![digit_char(n)]);
        assert(s.drop_last() =~= Seq::<char>::empty());
        assert(digits_value(s.drop_last(), base) == 0);
        assert(s.last() == digit_char(n));
        assert(digits_value(s, base) == 0 * base + char_digit_value(digit_char(n)));
        assert(char_digit_value('0') == 0);
    } else {
        assert(n / base < n) by (nonlinear_arith)
            requires
                n >= base,
                base >= 2,
        ;
        lemma_digits_read_back(n / base, base);
        lemma_digits_len(n / base, base);
        let p = digits_in_base(n / base, base);
        let s = digits_in_base(n, base);
        assert(n % base < base) by (nonlinear_arith)
            requires
                base >= 2,
        ;
        lemma_digit_char_reads_back(n % base);
        assert(s == p.push(digit_char(n % base)));
        assert(s.drop_last() =~= p);
        assert(n == (n / base) * base + n % base) by (nonlinear_arith)
            requires
                base >= 2,
        ;
        assert(n / base >= 1) by (nonlinear_arith)
            requires
                n >= base,
                base >= 2,
        ;
        assert(s[0] == p[0]);
        assert forall|i: int| 0 <= i < s.len() implies 0 <= #[trigger] char_digit_value(s[i])
            < base by {
            if i < p.len() {
                assert(s[i] == p[i]);
            }
        }
    }
}

/// The one-character text of a digit value.
fn digit_text(d: u64) -> (t: &'static str)
    requires
        d < 16,
    ensures
        t@ == seq![digit_char(d as nat)],
{
    proof {
        reveal_strlit("0");
        reveal_strlit("1");
        reveal_strlit("2");
        reveal_strlit("3");
        reveal_strlit("4");
        reveal_strlit("5");
        reveal_strlit("6");
        reveal_strlit("7");
        reveal_strlit("8");
        reveal_strlit("9");
        reveal_strlit("A");
        reveal_strlit("B");
        reveal_strlit("C");
        reveal_strlit("D");
        reveal_strlit("E");
        reveal_strlit("F");
    }
    let t = if d == 0 { "0" }
    else if d == 1 { "1" }
    else if d == 2 { "2" }
    else if d == 3 { "3" }
    else if d == 4 { "4" }
    else if d == 5 { "5" }
    else if d == 6 { "6" }
    else if d == 7 { "7" }
    else if d == 8 { "8" }
    else if d == 9 { "9" }
    else if d == 10 { "A" }
    else if d == 11 { "B" }
    else if d == 12 { "C" }
    else if d == 13 { "D" }
    else if d == 14 { "E" }
    else { "F" };
    assert(t@ =~= seq![digit_char(d as nat)]);
    t
}

/// Append the base-`base` digits of `n` to `out`.
pub fn push_digits(out: &mut String, n: u64, base: u64)
    requires
        2 <= base <= 16,
    ensures
        final(out)@ == old(out)@ + digits_in_base(n as nat, base as nat),
    decreases n,
{
    if n >= base {
        assert(n / base < n) by (nonlinear_arith)
            requires
                n >= base,
                base >= 2,
        ;
        push_digits(out, n / base, base);
        let d = digit_text(n % base);
        out.append(d);
        assert(final(out)@ =~= old(out)@ + digits_in_base(n as nat, base as nat));
    } else {
        let d = digit_text(n % 16);
        out.append(d);
        assert(final(out)@ =~= old(out)@ + digits_in_base(n as nat, base as nat));
    }
}

/// Append the decimal digits of `n` to `out`.
pub fn push_decimal(out: &mut String, n: u64)
    ensures
        final(out)@ == old(out)@ + decimal_digits(n as nat),
{
    push_digits(out, n, 10);
}

/// Append the upper-case hexadecimal digits of `n` to `out`.
pub fn push_hex(out: &mut String, n: u64)
    ensures
        final(out)@ == old(out)@ + hex_digits(n as nat),
{
    push_digits(out, n, 16);
}

/// The number of upper-case hexadecimal digits of `n`.
fn hex_len(n: u64) -> (len: u64)
    ensures
        len == hex_digits(n as nat).len(),
        1 <= len <= n as nat + 1,
    decreases n,
{
    proof {
        lemma_digits_len(n as nat, 16);
    }
    if n >= 16 {
        let l = hex_len(n / 16);
        l + 1
    } else {
        1
    }
}

/// Append the upper-case hexadecimal digits of `n`, left-padded with zeros
/// to at least `width` characters.
pub fn push_hex_padded(out: &mut String, n: u64, width: u64)
    requires
        width <= 64,
    ensures
        final(out)@ == old(out)@ + zero_padded(hex_digits(n as nat), width as nat),
{
    let len = hex_len(n);
    let ghost start = out@;
    if len < width {
        let mut i: u64 = len;
        while i < width
            invariant
                len <= i <= width,
                out@ == start + Seq::new((i - len) as nat, |k: int| '0'),
            decreases width - i,
        {
            out.append("0");
            proof {
                reveal_strlit("0");
            }
            assert(out@ =~= start + Seq::new((i + 1 - len) as nat, |k: int| '0'));
            i = i + 1;
        }
    }
    push_hex(out, n);
    assert(final(out)@ =~= old(out)@ + zero_padded(hex_digits(n as nat), width as nat));
}

/// Decimal rendering of a signed integer (as Rust's `{}` formats it): a
/// minus sign before the digits of the magnitude when negative.
pub open spec fn signed_decimal(n: int) -> Seq<char> {
    if n < 0 {
        seq!['-'] + decimal_digits((-n) as nat)
    } else {
        decimal_digits(n as nat)
    }
}

/// Append the decimal rendering of a signed integer to `out`.
pub fn push_signed_decimal(out: &mut String, n: i64)
    ensures
        final(out)@ == old(out)@ + signed_decimal(n as int),
{
    if n < 0 {
        out.append("-");
        proof {
            reveal_strlit("-");
        }
        let wide: i128 = n as i128;
        let magnitude: u64 = (0 - wide) as u64;
        push_decimal(out, magnitude);
        assert(final(out)@ =~= old(out)@ + signed_decimal(n as int));
    } else {
        push_decimal(out, n as u64);
    }
}

} // verus!
