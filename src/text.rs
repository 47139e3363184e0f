//! Plain text building blocks: decimal numbers, padding, repetition.

use vstd::prelude::*;

verus! {

/// The character of the decimal digit `d`, for `d` in `0..10`.
pub open spec fn digit_char(d: int) -> char {
    ((d + 48) as u32) as char
}

/// Decimal digits of a natural number, most significant first.
pub open spec fn nat_digits(n: nat) -> Seq<char>
    decreases n,
{
    if n < 10 {
        seq![digit_char(n as int)]
    } else {
        nat_digits(n / 10).push(digit_char((n % 10) as int))
    }
}

/// Decimal text of an integer, with a leading `-` when negative.
pub open spec fn decimal(n: int) -> Seq<char> {
    if n < 0 {
        seq!['-'] + nat_digits((-n) as nat)
    } else {
        nat_digits(n as nat)
    }
}

/// `n` copies of `c`; nothing when `n <= 0`.
pub open spec fn repeated(c: char, n: int) -> Seq<char> {
    Seq::new(if n > 0 { n as nat } else { 0 }, |_i: int| c)
}

/// `s` right-aligned in a field `width` characters wide.
pub open spec fn pad_left_spec(s: Seq<char>, width: int) -> Seq<char> {
    repeated(' ', width - s.len()) + s
}

/// `s` left-aligned in a field `width` characters wide.
pub open spec fn pad_right_spec(s: Seq<char>, width: int) -> Seq<char> {
    s + repeated(' ', width - s.len())
}

/// Relies on `String::push`: appends one character.
#[verifier::external_body]
fn push_char(s: &mut String, c: char)
    ensures
        final(s)@ == old(s)@.push(c),
{
    s.push(c);
}

fn digit(d: u8) -> (c: char)
    requires
        d < 10,
    ensures
        c == digit_char(d as int),
{
    match d {
        0 => '0',
        1 => '1',
        2 => '2',
        3 => '3',
        4 => '4',
        5 => '5',
        6 => '6',
        7 => '7',
        8 => '8',
        _ => '9',
    }
}

fn digits_text(n: u64) -> (r: String)
    ensures
        r@ == nat_digits(n as nat),
    decreases n,
{
    let c = digit((n % 10) as u8);
    if n < 10 {
        let mut s = String::new();
        push_char(&mut s, c);
        s
    } else {
        let mut s = digits_text(n / 10);
        push_char(&mut s, c);
        s
    }
}

/// Decimal text of `n`.
pub fn int_text(n: i32) -> (r: String)
    ensures
        r@ == decimal(n as int),
{
    if n < 0 {
        let mut s = String::new();
        push_char(&mut s, '-');
        let digits = digits_text((-(n as i64)) as u64);
        s.append(digits.as_str());
        s
    } else {
        digits_text(n as u64)
    }
}

/// `n` copies of `c`.
pub fn repeat_char(c: char, n: usize) -> (r: String)
    ensures
        r@ == repeated(c, n as int),
{
    let mut s = String::new();
    let mut i: usize = 0;
    while i < n
        invariant
            i <= n,
            s@ == repeated(c, i as int),
        decreases n - i,
    {
        push_char(&mut s, c);
        i = i + 1;
        assert(s@ =~= repeated(c, i as int));
    }
    assert(s@ =~= repeated(c, n as int));
    s
}

/// `s` right-aligned in a field `width` characters wide, as `{:>width}` does.
pub fn pad_left(s: &str, width: usize) -> (r: String)
    ensures
        r@ == pad_left_spec(s@, width as int),
{
    let len = s.unicode_len();
    let mut r = String::new();
    if len < width {
        r = repeat_char(' ', width - len);
    }
    r.append(s);
    r
}

/// `s` left-aligned in a field `width` characters wide, as `{:<width}` does.
pub fn pad_right(s: &str, width: usize) -> (r: String)
    ensures
        r@ == pad_right_spec(s@, width as int),
{
    let len = s.unicode_len();
    let mut r = String::from_str(s);
    if len < width {
        r.append(repeat_char(' ', width - len).as_str());
    } else {
        assert(repeated(' ', width - len) =~= Seq::empty());
        assert(r@ =~= pad_right_spec(s@, width as int));
    }
    r
}

} // verus!
