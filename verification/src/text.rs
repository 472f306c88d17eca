//! Text building blocks: decimal rendering of integers and the few string
//! comparisons the reference tables need.

use vstd::prelude::*;
use vstd::string::*;
use crate::money::trunc_div;

verus! {

/// The decimal digit character for `d` (0–9).
pub open spec fn digit_char(d: nat) -> char {
    if d == 0 { '0' }
    else if d == 1 { '1' }
    else if d == 2 { '2' }
    else if d == 3 { '3' }
    else if d == 4 { '4' }
    else if d == 5 { '5' }
    else if d == 6 { '6' }
    else if d == 7 { '7' }
    else if d == 8 { '8' }
    else { '9' }
}

/// Decimal rendering of a natural number, without leading zeros.
pub open spec fn dec_nat(n: nat) -> Seq<char>
    decreases n,
{
    if n < 10 {
        seq![digit_char(n)]
    } else {
        dec_nat(n / 10).push(digit_char(n % 10))
    }
}

/// Decimal rendering of an integer, with a leading `-` when negative.
pub open spec fn dec_int(i: int) -> Seq<char> {
    if i < 0 {
        seq!['-'] + dec_nat((-i) as nat)
    } else {
        dec_nat(i as nat)
    }
}

/// Whole dollars of an amount in cents, rounded toward zero, in decimal.
pub open spec fn dollars_text(cents: int) -> Seq<char> {
    dec_int(trunc_div(cents, 100))
}

/// `n` rendered with at least two digits (a leading zero below ten).
pub open spec fn two_digits(n: nat) -> Seq<char> {
    if n < 10 { seq!['0'].push(digit_char(n)) } else { dec_nat(n) }
}

/// A percentage given in basis points, as the shortest decimal that names
/// it: `9650` is `96.5`, `9700` is `97`, `9333` is `93.33`.
pub open spec fn pct_text(bps: nat) -> Seq<char> {
    let whole = bps / 100;
    let frac = bps % 100;
    if frac == 0 {
        dec_nat(whole)
    } else if frac % 10 == 0 {
        dec_nat(whole).push('.').push(digit_char(frac / 10))
    } else {
        dec_nat(whole).push('.') + two_digits(frac)
    }
}

/// A percentage given in basis points, always with two decimals:
/// `9650` is `96.50`.
pub open spec fn pct2_text(bps: nat) -> Seq<char> {
    dec_nat(bps / 100).push('.') + two_digits(bps % 100)
}

/// An amount in cents as dollars and cents: `-$12.05` for `-1205`.
pub open spec fn cents_text(c: int) -> Seq<char> {
    let m: nat = if c < 0 { (-c) as nat } else { c as nat };
    (if c < 0 { seq!['-'] } else { Seq::<char>::empty() }) + seq!['$'] + dec_nat(m / 100).push('.')
        + two_digits(m % 100)
}

/// `n` (below 1000) rendered with exactly three digits.
pub open spec fn three_digits(n: nat) -> Seq<char> {
    if n < 10 {
        seq!['0', '0'].push(digit_char(n))
    } else if n < 100 {
        seq!['0'] + dec_nat(n)
    } else {
        dec_nat(n)
    }
}

/// An amount in thousandths as a decimal with three places: `-130` is
/// `-0.130`, `1250` is `1.250`.
pub open spec fn milli3_text(i: int) -> Seq<char> {
    let m: nat = if i < 0 { (-i) as nat } else { i as nat };
    (if i < 0 { seq!['-'] } else { Seq::<char>::empty() }) + dec_nat(m / 1000).push('.') + three_digits(
        m % 1000,
    )
}

/// ASCII lower-casing of one character; other characters are unchanged.
pub open spec fn ascii_lower(c: char) -> char {
    if 'A' <= c && c <= 'Z' {
        ((c as u32) + 32) as char
    } else {
        c
    }
}

/// ASCII lower-casing of every character.
pub open spec fn ascii_lower_seq(s: Seq<char>) -> Seq<char> {
    Seq::new(s.len(), |i: int| ascii_lower(s[i]))
}

/// Equality up to ASCII case.
pub open spec fn eq_ignore_case(a: Seq<char>, b: Seq<char>) -> bool {
    ascii_lower_seq(a) == ascii_lower_seq(b)
}

/// `true` or `false`, as a boolean is written.
pub open spec fn bool_text(b: bool) -> Seq<char> {
    if b { "true"@ } else { "false"@ }
}

/// `true` or `false`, as a boolean is written.
pub fn bool_str(b: bool) -> (s: &'static str)
    ensures
        s@ == bool_text(b),
{
    if b { "true" } else { "false" }
}

/// `String::push`: appends one character.
#[verifier::external_body]
pub(crate) fn push_char(s: &mut String, c: char)
    ensures
        final(s)@ == old(s)@.push(c),
{
    s.push(c)
}

/// `<str as PartialEq>::eq`: true exactly when both hold the same characters.
#[verifier::external_body]
pub(crate) fn str_eq(a: &str, b: &str) -> (r: bool)
    ensures
        r == (a@ == b@),
{
    a == b
}

/// The characters of a text, in order.
pub fn chars_of(s: &str) -> (v: Vec<char>)
    ensures
        v@ == s@,
{
    broadcast use vstd::string::axiom_spec_iter;
    let mut v: Vec<char> = Vec::new();
    for c in it: s.chars()
        invariant
            it.seq() == s@,
            v@ == it.seq().take(it.index() as int),
    {
        assert(v@.push(c) =~= it.seq().take(it.index() + 1));
        v.push(c);
    }
    v
}

/// A character with `A`–`Z` mapped to `a`–`z`.
pub fn char_ascii_lower(c: char) -> (r: char)
    ensures
        r == ascii_lower(c),
{
    if 'A' <= c && c <= 'Z' {
        let b: u8 = (c as u32 + 32) as u8;
        b as char
    } else {
        c
    }
}

/// True exactly when both strings are equal after mapping `A`–`Z` to
/// `a`–`z`.
pub fn str_eq_ignore_ascii_case(a: &str, b: &str) -> (r: bool)
    ensures
        r == eq_ignore_case(a@, b@),
{
    let x = chars_of(a);
    let y = chars_of(b);
    if x.len() != y.len() {
        assert(ascii_lower_seq(a@).len() != ascii_lower_seq(b@).len());
        return false;
    }
    let mut i: usize = 0;
    while i < x.len()
        invariant
            x@ == a@,
            y@ == b@,
            x@.len() == y@.len(),
            0 <= i <= x@.len(),
            forall|j: int| 0 <= j < i ==> ascii_lower(x@[j]) == ascii_lower(y@[j]),
        decreases x@.len() - i,
    {
        if char_ascii_lower(x[i]) != char_ascii_lower(y[i]) {
            assert(ascii_lower_seq(a@)[i as int] != ascii_lower_seq(b@)[i as int]);
            return false;
        }
        i = i + 1;
    }
    assert(ascii_lower_seq(a@) =~= ascii_lower_seq(b@));
    true
}

/// A copy with `A`–`Z` mapped to `a`–`z`.
pub fn str_to_ascii_lowercase(s: &str) -> (r: String)
    ensures
        r@ == ascii_lower_seq(s@),
{
    let x = chars_of(s);
    let mut r = String::new();
    let mut i: usize = 0;
    while i < x.len()
        invariant
            x@ == s@,
            0 <= i <= x@.len(),
            r@ == ascii_lower_seq(s@).take(i as int),
        decreases x@.len() - i,
    {
        let c = char_ascii_lower(x[i]);
        push_char(&mut r, c);
        assert(ascii_lower_seq(s@).take(i + 1) =~= ascii_lower_seq(s@).take(i as int).push(c));
        i = i + 1;
    }
    assert(ascii_lower_seq(s@).take(x@.len() as int) =~= ascii_lower_seq(s@));
    r
}

/// What `str::to_uppercase` gives for a text (Unicode uppercase mapping).
pub uninterp spec fn uppercase_of(s: Seq<char>) -> Seq<char>;

/// `str::to_uppercase`: the Unicode uppercase of the text. The mapping is
/// named, not spelled out (it follows Unicode's case tables).
#[verifier::external_body]
pub(crate) fn str_to_uppercase(s: &str) -> (r: String)
    ensures
        r@ == uppercase_of(s@),
{
    s.to_uppercase()
}

/// The digit character for `d`.
pub fn digit(d: u64) -> (c: char)
    requires
        d < 10,
    ensures
        c == digit_char(d as nat),
{
    if d == 0 { '0' }
    else if d == 1 { '1' }
    else if d == 2 { '2' }
    else if d == 3 { '3' }
    else if d == 4 { '4' }
    else if d == 5 { '5' }
    else if d == 6 { '6' }
    else if d == 7 { '7' }
    else if d == 8 { '8' }
    else { '9' }
}

/// Appends the decimal rendering of `n`.
pub fn push_dec_u64(s: &mut String, n: u64)
    ensures
        final(s)@ == old(s)@ + dec_nat(n as nat),
    decreases n,
{
    if n < 10 {
        push_char(s, digit(n));
        assert(old(s)@.push(digit_char(n as nat)) =~= old(s)@ + dec_nat(n as nat));
    } else {
        push_dec_u64(s, n / 10);
        push_char(s, digit(n % 10));
        assert(old(s)@ + dec_nat((n / 10) as nat) + seq![digit_char((n % 10) as nat)]
            =~= old(s)@ + dec_nat(n as nat));
    }
}

/// Appends the decimal rendering of `i`, with `-` when negative.
pub fn push_dec_i64(s: &mut String, i: i64)
    ensures
        final(s)@ == old(s)@ + dec_int(i as int),
{
    if i < 0 {
        push_char(s, '-');
        let m: u64 = ((-(i + 1)) as u64) + 1;
        assert(m == -(i as int));
        push_dec_u64(s, m);
        assert(old(s)@.push('-') + dec_nat(m as nat) =~= old(s)@ + dec_int(i as int));
    } else {
        push_dec_u64(s, i as u64);
    }
}

/// Decimal rendering of `n`.
pub fn dec_u64(n: u64) -> (r: String)
    ensures
        r@ == dec_nat(n as nat),
{
    let mut s = String::new();
    push_dec_u64(&mut s, n);
    assert(Seq::<char>::empty() + dec_nat(n as nat) =~= dec_nat(n as nat));
    s
}

/// Appends the whole-dollar part of an amount in cents.
pub fn push_dollars(s: &mut String, cents: i64)
    ensures
        final(s)@ == old(s)@ + dollars_text(cents as int),
{
    let d: i64 = cents / 100;
    assert(d == trunc_div(cents as int, 100));
    push_dec_i64(s, d);
}

/// Appends `n` with at least two digits.
pub fn push_two_digits(s: &mut String, n: u64)
    ensures
        final(s)@ == old(s)@ + two_digits(n as nat),
{
    if n < 10 {
        push_char(s, '0');
        push_char(s, digit(n));
        assert(old(s)@.push('0').push(digit_char(n as nat)) =~= old(s)@ + two_digits(n as nat));
    } else {
        push_dec_u64(s, n);
    }
}

/// Appends a basis-point percentage in its shortest decimal form.
pub fn push_pct(s: &mut String, bps: u64)
    ensures
        final(s)@ == old(s)@ + pct_text(bps as nat),
{
    let whole = bps / 100;
    let frac = bps % 100;
    push_dec_u64(s, whole);
    if frac == 0 {
    } else if frac % 10 == 0 {
        push_char(s, '.');
        push_char(s, digit(frac / 10));
        assert(old(s)@ + dec_nat(whole as nat) + seq!['.'] + seq![digit_char((frac / 10) as nat)]
            =~= old(s)@ + pct_text(bps as nat));
    } else {
        push_char(s, '.');
        push_two_digits(s, frac);
        assert(old(s)@ + dec_nat(whole as nat) + seq!['.'] + two_digits(frac as nat)
            =~= old(s)@ + pct_text(bps as nat));
    }
}

/// Appends a basis-point percentage with exactly two decimals.
pub fn push_pct2(s: &mut String, bps: u64)
    ensures
        final(s)@ == old(s)@ + pct2_text(bps as nat),
{
    push_dec_u64(s, bps / 100);
    push_char(s, '.');
    push_two_digits(s, bps % 100);
    assert(old(s)@ + dec_nat((bps / 100) as nat) + seq!['.'] + two_digits((bps % 100) as nat)
        =~= old(s)@ + pct2_text(bps as nat));
}

/// Appends an amount in cents as dollars and cents.
pub fn push_cents(s: &mut String, c: i64)
    ensures
        final(s)@ == old(s)@ + cents_text(c as int),
{
    if c < 0 {
        push_char(s, '-');
    }
    let m: u64 = if c < 0 { ((-(c + 1)) as u64) + 1 } else { c as u64 };
    let ghost before = s@;
    push_char(s, '$');
    push_dec_u64(s, m / 100);
    push_char(s, '.');
    push_two_digits(s, m % 100);
    assert(s@ =~= old(s)@ + cents_text(c as int));
}

/// Appends an amount in thousandths with three decimal places.
pub fn push_milli3(s: &mut String, i: i64)
    ensures
        final(s)@ == old(s)@ + milli3_text(i as int),
{
    if i < 0 {
        push_char(s, '-');
    }
    let m: u64 = if i < 0 { ((-(i + 1)) as u64) + 1 } else { i as u64 };
    push_dec_u64(s, m / 1000);
    push_char(s, '.');
    let r = m % 1000;
    if r < 10 {
        push_char(s, '0');
        push_char(s, '0');
        push_char(s, digit(r));
    } else if r < 100 {
        push_char(s, '0');
        push_dec_u64(s, r);
    } else {
        push_dec_u64(s, r);
    }
    assert(s@ =~= old(s)@ + milli3_text(i as int));
}

} // verus!
