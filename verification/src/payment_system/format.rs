//! Decimal text of numbers, as the account summary prints them.
use vstd::prelude::*;

verus! {

/// The decimal digit character for `d` (0 to 9).
pub open spec fn digit_char(d: int) -> char {
    if d == 0 {
        '0'
    } else if d == 1 {
        '1'
    } else if d == 2 {
        '2'
    } else if d == 3 {
        '3'
    } else if d == 4 {
        '4'
    } else if d == 5 {
        '5'
    } else if d == 6 {
        '6'
    } else if d == 7 {
        '7'
    } else if d == 8 {
        '8'
    } else {
        '9'
    }
}

/// The decimal digits of `n` without leading zeros; empty for zero.
pub open spec fn digits(n: nat) -> Seq<char>
    decreases n,
{
    if n == 0 {
        Seq::empty()
    } else {
        digits(n / 10).push(digit_char((n % 10) as int))
    }
}

/// The decimal text of a natural number: its digits, or `0` for zero.
pub open spec fn nat_text(n: nat) -> Seq<char> {
    if n == 0 {
        seq!['0']
    } else {
        digits(n)
    }
}

/// `d` with leading zeros added until it is at least `len` long.
pub open spec fn pad_zeros(d: Seq<char>, len: nat) -> Seq<char> {
    if d.len() >= len {
        d
    } else {
        Seq::new((len - d.len()) as nat, |i: int| '0') + d
    }
}

/// The text of the decimal `m / 10^s` as `rust_decimal` displays it: a minus
/// sign for a negative value, the whole part (`0` when it is empty), and, for a
/// positive scale, a point followed by exactly `s` fractional digits.
pub open spec fn decimal_text(m: int, s: nat) -> Seq<char> {
    let p = pad_zeros(digits(if m < 0 { -m } else { m } as nat), s);
    let whole = p.subrange(0, p.len() - s);
    let frac = p.subrange(p.len() - s, p.len() as int);
    let sign = if m < 0 { seq!['-'] } else { Seq::<char>::empty() };
    let whole_text = if whole.len() == 0 { seq!['0'] } else { whole };
    if s == 0 {
        sign + whole_text
    } else {
        sign + whole_text + seq!['.'] + frac
    }
}

/// The one-character string of the digit `d`.
fn digit_str(d: u32) -> (r: &'static str)
    requires
        d < 10,
    ensures
        r@ == seq![digit_char(d as int)],
{
    if d == 0 {
        proof { reveal_strlit("0"); }
        "0"
    } else if d == 1 {
        proof { reveal_strlit("1"); }
        "1"
    } else if d == 2 {
        proof { reveal_strlit("2"); }
        "2"
    } else if d == 3 {
        proof { reveal_strlit("3"); }
        "3"
    } else if d == 4 {
        proof { reveal_strlit("4"); }
        "4"
    } else if d == 5 {
        proof { reveal_strlit("5"); }
        "5"
    } else if d == 6 {
        proof { reveal_strlit("6"); }
        "6"
    } else if d == 7 {
        proof { reveal_strlit("7"); }
        "7"
    } else if d == 8 {
        proof { reveal_strlit("8"); }
        "8"
    } else {
        proof { reveal_strlit("9"); }
        "9"
    }
}

/// Appends the digits of `n` (nothing for zero) to `out`.
fn append_digits(out: &mut String, n: u32)
    ensures
        final(out)@ == old(out)@ + digits(n as nat),
    decreases n,
{
    if n > 0 {
        append_digits(out, n / 10);
        out.append(digit_str(n % 10));
        assert(final(out)@ =~= old(out)@ + digits(n as nat));
    }
}

/// Appends the decimal text of `n` to `out`.
pub fn append_nat_text(out: &mut String, n: u32)
    ensures
        final(out)@ == old(out)@ + nat_text(n as nat),
{
    if n == 0 {
        out.append(digit_str(0));
    } else {
        append_digits(out, n);
    }
}

} // verus!
