//! Building blocks of the display text: repeated characters, padding to a
//! column width, and decimal numbers.
use vstd::prelude::*;

verus! {

/// `n` copies of the character `c`.
pub open spec fn repeat_spec(c: char, n: nat) -> Seq<char> {
    Seq::new(n, |i: int| c)
}

/// `s` followed by spaces up to `width` characters; `s` itself when it is
/// already that long.
pub open spec fn pad_right_spec(s: Seq<char>, width: nat) -> Seq<char> {
    if s.len() < width {
        s + repeat_spec(' ', (width - s.len()) as nat)
    } else {
        s
    }
}

/// Copies of `fill` followed by `s`, up to `width` characters; `s` itself
/// when it is already that long.
pub open spec fn pad_left_spec(s: Seq<char>, fill: char, width: nat) -> Seq<char> {
    if s.len() < width {
        repeat_spec(fill, (width - s.len()) as nat) + s
    } else {
        s
    }
}

/// The decimal digit for a value below ten.
pub open spec fn digit_spec(d: nat) -> char {
    if d == 0 {
        '0'
    } else if d == 1 {
        '1'
    } else if d == 2 {
        '2'
    } else if d == 3 {
        '3'
    } else if d == 4 {
        '4'
    } else if d == 5 {
        '5'
    } else if d == 6 {
        '6'
    } else if d == 7 {
        '7'
    } else if d == 8 {
        '8'
    } else {
        '9'
    }
}

/// The decimal notation of `n`: no sign, no leading zeros, "0" for zero.
pub open spec fn decimal_spec(n: nat) -> Seq<char>
    decreases n,
{
    if n < 10 {
        seq![digit_spec(n)]
    } else {
        decimal_spec(n / 10).push(digit_spec(n % 10))
    }
}

/// Relies on String::push: the character is appended at the end.
#[verifier::external_body]
pub(crate) fn push_char(s: &mut String, c: char)
    ensures
        final(s)@ == old(s)@.push(c),
{
    s.push(c)
}

/// Appends `n` copies of `c` to `s`.
pub fn push_repeated(s: &mut String, c: char, n: usize)
    ensures
        final(s)@ == old(s)@ + repeat_spec(c, n as nat),
{
    let ghost start = s@;
    let mut i: usize = 0;
    while i < n
        invariant
            i <= n,
            s@ == start + repeat_spec(c, i as nat),
        decreases n - i,
    {
        push_char(s, c);
        i = i + 1;
        assert(s@ =~= start + repeat_spec(c, i as nat));
    }
}

/// `n` copies of `c`.
pub fn repeated(c: char, n: usize) -> (r: String)
    ensures
        r@ == repeat_spec(c, n as nat),
{
    let mut r = String::new();
    push_repeated(&mut r, c, n);
    assert(r@ =~= repeat_spec(c, n as nat));
    r
}

/// Appends `t` to `s`.
pub fn push_text(s: &mut String, t: &str)
    ensures
        final(s)@ == old(s)@ + t@,
{
    s.append(t);
}

/// `s` left-aligned in a column of `width` characters.
pub fn pad_right(s: &str, width: usize) -> (r: String)
    ensures
        r@ == pad_right_spec(s@, width as nat),
{
    let len = s.unicode_len();
    let mut r = String::from_str(s);
    if len < width {
        push_repeated(&mut r, ' ', width - len);
    }
    r
}

/// `s` right-aligned in a column of `width` characters, the gap filled
/// with `fill`.
pub fn pad_left(s: &str, fill: char, width: usize) -> (r: String)
    ensures
        r@ == pad_left_spec(s@, fill, width as nat),
{
    let len = s.unicode_len();
    let mut r = String::new();
    if len < width {
        push_repeated(&mut r, fill, width - len);
    }
    push_text(&mut r, s);
    assert(r@ =~= pad_left_spec(s@, fill, width as nat));
    r
}

/// The decimal digit for `d`.
pub fn digit(d: u64) -> (c: char)
    requires
        d < 10,
    ensures
        c == digit_spec(d as nat),
{
    match d {
        0 => '0',
        1 => '1',
        2 => '2',
        3 => '3',
        4 => '4',
        5 => '5',
        6 => '6',
        7 => '7',
        8 => '8',
        _ => '9',
    }
}

/// Appends the decimal notation of `n` to `s`.
pub fn push_decimal(s: &mut String, n: u64)
    ensures
        final(s)@ == old(s)@ + decimal_spec(n as nat),
    decreases n,
{
    if n >= 10 {
        push_decimal(s, n / 10);
    }
    push_char(s, digit(n % 10));
    assert(s@ =~= old(s)@ + decimal_spec(n as nat));
}

/// The decimal notation of `n`.
pub fn decimal(n: u64) -> (r: String)
    ensures
        r@ == decimal_spec(n as nat),
{
    let mut r = String::new();
    push_decimal(&mut r, n);
    assert(r@ =~= decimal_spec(n as nat));
    r
}

} // verus!
