//! Text assembly helpers with exact specifications.
//!
//! Every function here returns a `String` whose characters are pinned by a
//! spec function over `Seq<char>`, so that callers can state exactly what a
//! rendered line holds.

use vstd::arithmetic::div_mod::lemma_div_denominator;
use vstd::prelude::*;
use vstd::string::StringExecFns;

verus! {

/// `String::push` appends exactly one character to the end of the string.
pub assume_specification[ String::push ](s: &mut String, ch: char)
    ensures
        final(s)@ == old(s)@.push(ch),
;

/// `==` on string slices holds exactly when both hold the same characters.
pub assume_specification[ <str as PartialEq>::eq ](a: &str, b: &str) -> (r: bool)
    ensures
        r == (a@ == b@),
;

/// The upper-case form of a text: what `str::to_uppercase` returns for it.
pub uninterp spec fn uppercase_of(s: Seq<char>) -> Seq<char>;

/// `str::to_uppercase` returns the upper-case equivalent of the slice as
/// a new string; it depends on the characters alone.
pub assume_specification[ str::to_uppercase ](s: &str) -> (r: String)
    ensures
        r@ == uppercase_of(s@),
;

/// The character that shows the decimal digit `d`.
pub open spec fn digit_char(d: int) -> char {
    if d == 0 {
        '0'
    } else if d == 1 {
        '1'
    } else if d == 2 {
        '2'
    } else if d == 3 {
        '3'
    } else if d == 4 {
        '4'
    } else if d == 5 {
        '5'
    } else if d == 6 {
        '6'
    } else if d == 7 {
        '7'
    } else if d == 8 {
        '8'
    } else {
        '9'
    }
}

/// The plain decimal numeral of `n`, without sign or leading zeros.
pub open spec fn decimal(n: nat) -> Seq<char>
    decreases n,
{
    if n < 10 {
        seq![digit_char(n as int)]
    } else {
        decimal(n / 10).push(digit_char((n % 10) as int))
    }
}

/// The octal numeral of `n`, without prefix or leading zeros.
pub open spec fn octal(n: nat) -> Seq<char>
    decreases n,
{
    if n < 8 {
        seq![digit_char(n as int)]
    } else {
        octal(n / 8).push(digit_char((n % 8) as int))
    }
}

/// The lowest `width` decimal digits of `n`, most significant first and
/// padded with zeros on the left.
pub open spec fn fixed_digits(n: nat, width: nat) -> Seq<char>
    decreases width,
{
    if width == 0 {
        Seq::empty()
    } else {
        fixed_digits(n / 10, (width - 1) as nat).push(digit_char((n % 10) as int))
    }
}

/// Ten to the power `k`.
pub open spec fn pow10(k: nat) -> nat
    decreases k,
{
    if k == 0 {
        1
    } else {
        10 * pow10((k - 1) as nat)
    }
}

/// `value` read as a count of units of `10^-places`, written with exactly
/// `places` digits after the decimal point.
pub open spec fn fixed_point(value: nat, places: nat) -> Seq<char> {
    decimal(value / pow10(places)) + seq!['.'] + fixed_digits(value, places)
}

/// The quotient `n / d` rounded to the nearest integer, halves rounded up.
pub open spec fn round_div(n: nat, d: nat) -> nat {
    if 2 * (n % d) >= d {
        n / d + 1
    } else {
        n / d
    }
}

/// `count` copies of `ch`.
pub open spec fn repeated(ch: char, count: nat) -> Seq<char> {
    Seq::new(count, |i: int| ch)
}

/// `s` followed by as many spaces as it takes to reach `width` characters;
/// `s` itself when it is already that long.
pub open spec fn padded_right(s: Seq<char>, width: nat) -> Seq<char> {
    if s.len() >= width {
        s
    } else {
        s + repeated(' ', (width - s.len()) as nat)
    }
}

/// `s` centred in a field of `width` characters. When the spare room is odd
/// the extra space goes to the right.
pub open spec fn centered(s: Seq<char>, width: nat) -> Seq<char> {
    if s.len() >= width {
        s
    } else {
        let room = (width - s.len()) as nat;
        repeated(' ', room / 2) + s + repeated(' ', (room - room / 2) as nat)
    }
}

/// A power of ten is above zero.
pub proof fn lemma_pow10_positive(k: nat)
    ensures
        pow10(k) > 0,
    decreases k,
{
    if k > 0 {
        lemma_pow10_positive((k - 1) as nat);
    }
}

/// A decimal numeral is never empty and `fixed_digits` has the width asked for.
pub proof fn lemma_numeral_lengths(n: nat, width: nat)
    ensures
        decimal(n).len() >= 1,
        fixed_digits(n, width).len() == width,
    decreases n + width,
{
    if n >= 10 {
        lemma_numeral_lengths(n / 10, 0);
    }
    if width > 0 {
        lemma_numeral_lengths(n / 10, (width - 1) as nat);
    }
}

/// Different numbers have different decimal numerals.
pub proof fn lemma_decimal_injective(a: nat, b: nat)
    requires
        decimal(a) == decimal(b),
    ensures
        a == b,
    decreases a,
{
    lemma_numeral_lengths(a / 10, 0);
    lemma_numeral_lengths(b / 10, 0);
    if a < 10 && b < 10 {
        assert(decimal(a)[0] == digit_char(a as int));
        assert(decimal(b)[0] == digit_char(b as int));
    } else if a >= 10 && b >= 10 {
        let x = decimal(a / 10);
        let y = decimal(b / 10);
        let da = digit_char((a % 10) as int);
        let db = digit_char((b % 10) as int);
        assert(decimal(a) == x.push(da));
        assert(decimal(b) == y.push(db));
        assert(x.push(da).drop_last() =~= x);
        assert(y.push(db).drop_last() =~= y);
        assert(x.push(da).last() == da);
        assert(y.push(db).last() == db);
        lemma_decimal_injective(a / 10, b / 10);
        assert(a / 10 == b / 10);
        assert(a % 10 == b % 10);
    } else if a < 10 {
        assert(decimal(a).len() == 1);
        assert(decimal(b).len() == decimal(b / 10).len() + 1);
    } else {
        assert(decimal(b).len() == 1);
        assert(decimal(a).len() == decimal(a / 10).len() + 1);
    }
}

/// The character that shows the digit `d`.
pub fn digit(d: u8) -> (c: char)
    requires
        d < 10,
    ensures
        c == digit_char(d as int),
{
    if d == 0 {
        '0'
    } else if d == 1 {
        '1'
    } else if d == 2 {
        '2'
    } else if d == 3 {
        '3'
    } else if d == 4 {
        '4'
    } else if d == 5 {
        '5'
    } else if d == 6 {
        '6'
    } else if d == 7 {
        '7'
    } else if d == 8 {
        '8'
    } else {
        '9'
    }
}

/// Appends the decimal numeral of `n` to `out`.
pub fn push_decimal(out: &mut String, n: u128)
    ensures
        final(out)@ == old(out)@ + decimal(n as nat),
    decreases n,
{
    if n >= 10 {
        push_decimal(out, n / 10);
    }
    out.push(digit((n % 10) as u8));
}

/// Appends the octal numeral of `n` to `out`.
pub fn push_octal(out: &mut String, n: u32)
    ensures
        final(out)@ == old(out)@ + octal(n as nat),
    decreases n,
{
    if n >= 8 {
        push_octal(out, n / 8);
    }
    out.push(digit((n % 8) as u8));
}

/// The decimal numeral of `n`.
pub fn decimal_string(n: u128) -> (s: String)
    ensures
        s@ == decimal(n as nat),
{
    let mut s = String::new();
    push_decimal(&mut s, n);
    s
}

/// Appends the lowest `width` digits of `n` to `out`, zero-padded.
pub fn push_fixed_digits(out: &mut String, n: u128, width: usize)
    ensures
        final(out)@ == old(out)@ + fixed_digits(n as nat, width as nat),
    decreases width,
{
    if width > 0 {
        push_fixed_digits(out, n / 10, width - 1);
        out.push(digit((n % 10) as u8));
    }
}

/// `n / 10^k`, computed by `k` divisions by ten.
pub fn shift_right_decimal(n: u128, k: usize) -> (r: u128)
    ensures
        r == (n as nat) / pow10(k as nat),
{
    let mut r: u128 = n;
    let mut i: usize = 0;
    assert(pow10(0) == 1);
    while i < k
        invariant
            i <= k,
            r == (n as nat) / pow10(i as nat),
        decreases k - i,
    {
        proof {
            lemma_pow10_positive(i as nat);
            lemma_div_denominator(n as int, pow10(i as nat) as int, 10);
            assert(pow10(i as nat) * 10 == pow10((i + 1) as nat));
        }
        r = r / 10;
        i = i + 1;
    }
    r
}

/// Appends `value`, taken as a count of units of `10^-places`, with
/// exactly `places` fractional digits.
pub fn push_fixed_point(out: &mut String, value: u128, places: usize)
    ensures
        final(out)@ == old(out)@ + fixed_point(value as nat, places as nat),
{
    let whole: u128 = shift_right_decimal(value, places);
    push_decimal(out, whole);
    out.push('.');
    push_fixed_digits(out, value, places);
}

/// `n / d` rounded to the nearest integer, halves rounded up.
pub fn round_div_u128(n: u128, d: u128) -> (q: u128)
    requires
        d > 0,
        round_div(n as nat, d as nat) <= u128::MAX,
    ensures
        q == round_div(n as nat, d as nat),
{
    let r: u128 = n % d;
    if r >= d - r {
        n / d + 1
    } else {
        n / d
    }
}

/// Appends `count` copies of `ch`.
pub fn push_repeated(out: &mut String, ch: char, count: usize)
    ensures
        final(out)@ == old(out)@ + repeated(ch, count as nat),
{
    let mut i: usize = 0;
    while i < count
        invariant
            i <= count,
            out@ == old(out)@ + repeated(ch, i as nat),
        decreases count - i,
    {
        out.push(ch);
        i = i + 1;
    }
}

/// Appends `s`, left-aligned in a field of `width` characters.
pub fn push_padded_right(out: &mut String, s: &str, width: usize)
    ensures
        final(out)@ == old(out)@ + padded_right(s@, width as nat),
{
    let len: usize = s.unicode_len();
    out.append(s);
    if len < width {
        push_repeated(out, ' ', width - len);
    }
}

/// Appends `s`, centred in a field of `width` characters.
pub fn push_centered(out: &mut String, s: &str, width: usize)
    ensures
        final(out)@ == old(out)@ + centered(s@, width as nat),
{
    let len: usize = s.unicode_len();
    if len >= width {
        out.append(s);
    } else {
        let room: usize = width - len;
        let left: usize = room / 2;
        push_repeated(out, ' ', left);
        out.append(s);
        push_repeated(out, ' ', room - left);
    }
}

} // verus!
