//! Building display strings character by character: decimal rendering with
//! optional right-alignment, as the column layout needs it.

use vstd::prelude::*;
use vstd::string::StringExecFns;

verus! {

/// Relies on `String::push`: appends exactly the given character.
#[verifier::external_body]
pub(crate) fn push_char(s: &mut String, c: char)
    ensures
        final(s)@ == old(s)@.push(c),
{
    s.push(c);
}

/// Relies on `String::pop`: removes and returns the last character, if any.
#[verifier::external_body]
pub(crate) fn pop_char(s: &mut String) -> (r: Option<char>)
    ensures
        old(s)@.len() == 0 ==> final(s)@ == old(s)@ && r is None,
        old(s)@.len() > 0 ==> final(s)@ == old(s)@.drop_last() && r == Some(old(s)@.last()),
{
    s.pop()
}

pub open spec fn spec_digit_char(d: int) -> char {
    if d == 0 {
        '0'
    } else if d == 1 {
        '1'
    } else if d == 2 {
        '2'
    } else if d == 3 {
        '3'
    } else if d == 4 {
        '4'
    } else if d == 5 {
        '5'
    } else if d == 6 {
        '6'
    } else if d == 7 {
        '7'
    } else if d == 8 {
        '8'
    } else {
        '9'
    }
}

/// The decimal digits of `n`, most significant first.
pub open spec fn spec_decimal(n: int) -> Seq<char>
    decreases n,
{
    if n < 10 {
        seq![spec_digit_char(n)]
    } else {
        spec_decimal(n / 10).push(spec_digit_char(n % 10))
    }
}

/// `k` spaces (none when `k` is negative).
pub open spec fn spec_spaces(k: int) -> Seq<char> {
    Seq::new(if k < 0 { 0 } else { k as nat }, |i: int| ' ')
}

/// The decimal digits of `n`, right-aligned with spaces to at least `width`
/// characters.
pub open spec fn spec_decimal_padded(n: int, width: int) -> Seq<char> {
    spec_spaces(width - spec_decimal(n).len()) + spec_decimal(n)
}

fn digit_char(d: u64) -> (c: char)
    requires
        d < 10,
    ensures
        c == spec_digit_char(d as int),
{
    if d == 0 {
        '0'
    } else if d == 1 {
        '1'
    } else if d == 2 {
        '2'
    } else if d == 3 {
        '3'
    } else if d == 4 {
        '4'
    } else if d == 5 {
        '5'
    } else if d == 6 {
        '6'
    } else if d == 7 {
        '7'
    } else if d == 8 {
        '8'
    } else {
        '9'
    }
}

/// Appends the decimal digits of `n` to `s`.
pub fn push_decimal(s: &mut String, n: u64)
    ensures
        final(s)@ == old(s)@ + spec_decimal(n as int),
    decreases n,
{
    if n < 10 {
        push_char(s, digit_char(n));
        proof {
            assert(s@ =~= old(s)@ + spec_decimal(n as int));
        }
    } else {
        push_decimal(s, n / 10);
        push_char(s, digit_char(n % 10));
        proof {
            assert(s@ =~= old(s)@ + spec_decimal(n as int));
        }
    }
}

/// Renders `n` in decimal.
pub fn decimal_string(n: u64) -> (r: String)
    ensures
        r@ == spec_decimal(n as int),
{
    let mut s = String::new();
    push_decimal(&mut s, n);
    proof {
        assert(s@ =~= spec_decimal(n as int));
    }
    s
}

/// Appends `n` in decimal, right-aligned with spaces to at least `width`
/// characters.
pub fn push_decimal_padded(s: &mut String, n: u64, width: usize)
    ensures
        final(s)@ == old(s)@ + spec_decimal_padded(n as int, width as int),
{
    let digits = decimal_string(n);
    let len = digits.as_str().unicode_len();
    let mut pad: usize = 0;
    while pad + len < width
        invariant
            len == spec_decimal(n as int).len(),
            pad + len <= width || pad == 0,
            s@ == old(s)@ + spec_spaces(pad as int),
        decreases width - pad,
    {
        push_char(s, ' ');
        proof {
            assert(s@ =~= old(s)@ + spec_spaces(pad + 1));
        }
        pad += 1;
    }
    s.append(digits.as_str());
    proof {
        assert(spec_spaces(width - spec_decimal(n as int).len()) =~= spec_spaces(pad as int));
        assert(s@ =~= old(s)@ + spec_decimal_padded(n as int, width as int));
    }
}

/// The decimal digits of `n`, with a leading minus sign when negative.
pub open spec fn spec_signed_decimal(n: int) -> Seq<char> {
    if n < 0 {
        seq!['-'] + spec_decimal(-n)
    } else {
        spec_decimal(n)
    }
}

/// Appends `n` in decimal with a leading minus sign when negative.
pub fn push_decimal_i32(s: &mut String, n: i32)
    ensures
        final(s)@ == old(s)@ + spec_signed_decimal(n as int),
{
    if n >= 0 {
        push_decimal(s, n as u64);
    } else {
        push_char(s, '-');
        let m: u64 = if n == i32::MIN {
            2147483648u64
        } else {
            (-n) as u64
        };
        push_decimal(s, m);
        proof {
            assert(s@ =~= old(s)@ + (seq!['-'] + spec_decimal(-(n as int))));
        }
    }
}

} // verus!
