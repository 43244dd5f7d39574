//! Text as bytes: literals, padding, and decimal numbers with a fixed number
//! of fractional digits.
//!
//! Every quantity that has a fractional part is carried through this crate as
//! an integer count of thousandths. This module turns such integers into the
//! digits that a frame shows.

use vstd::prelude::*;
use vstd::string::*;
use vstd::utf8::encode_utf8;

verus! {

/// The UTF-8 encoding of a string.
pub open spec fn utf8(chars: Seq<char>) -> Seq<u8> {
    encode_utf8(chars)
}

/// `n` space characters.
pub open spec fn spaces(n: nat) -> Seq<u8> {
    Seq::new(n, |i: int| 32u8)
}

/// The ASCII digit for `d`, where `d < 10`.
pub open spec fn digit(d: nat) -> u8 {
    (48 + d) as u8
}

/// The decimal digits of `n`, most significant first, without leading zeros.
pub open spec fn decimal(n: nat) -> Seq<u8>
    decreases n,
{
    if n < 10 {
        seq![digit(n)]
    } else {
        decimal(n / 10).push(digit(n % 10))
    }
}

/// `n / d` rounded to the nearest integer; a tie goes to the even neighbour.
pub open spec fn round_div(n: nat, d: nat) -> nat
    recommends
        d > 0,
{
    let q = n / d;
    let r = n % d;
    if 2 * r > d || (2 * r == d && q % 2 == 1) {
        q + 1
    } else {
        q
    }
}

/// A count of tenths written with one fractional digit.
pub open spec fn fixed_1(tenths: nat) -> Seq<u8> {
    decimal(tenths / 10).push(46u8).push(digit(tenths % 10))
}

/// A count of thousandths written with three fractional digits.
pub open spec fn fixed_3(thousandths: nat) -> Seq<u8> {
    decimal(thousandths / 1000).push(46u8).push(digit(thousandths / 100 % 10)).push(
        digit(thousandths / 10 % 10),
    ).push(digit(thousandths % 10))
}

/// `body`, which fills `columns` columns, pushed to the right edge of a field
/// of `width` columns. A body wider than the field is left as it is.
pub open spec fn right(body: Seq<u8>, columns: nat, width: nat) -> Seq<u8> {
    spaces(
        if width > columns {
            (width - columns) as nat
        } else {
            0
        },
    ) + body
}

/// `body`, which fills `columns` columns, in the middle of a field of `width`
/// columns. Where the padding cannot be split evenly the right side gets the
/// extra column.
pub open spec fn centered(body: Seq<u8>, columns: nat, width: nat) -> Seq<u8> {
    let pad = if width > columns {
        (width - columns) as nat
    } else {
        0
    };
    spaces(pad / 2) + body + spaces((pad - pad / 2) as nat)
}

/// How many digits a number has: one at least, and no more than its size
/// asks for.
pub proof fn lemma_decimal_len(n: nat)
    ensures
        decimal(n).len() >= 1,
        n < 10 ==> decimal(n).len() == 1,
        n < 100 ==> decimal(n).len() <= 2,
        n < 1_000 ==> decimal(n).len() <= 3,
        n < 10_000 ==> decimal(n).len() <= 4,
    decreases n,
{
    if n >= 10 {
        lemma_decimal_len(n / 10);
    }
}

/// A right-aligned body fills its field, or its own length where that is
/// more.
pub proof fn lemma_right_len(body: Seq<u8>, width: nat)
    ensures
        right(body, body.len(), width).len() == if width > body.len() {
            width
        } else {
            body.len()
        },
{
}

/// Appends the UTF-8 bytes of `s`.
pub fn push_str(out: &mut Vec<u8>, s: &str)
    ensures
        final(out)@ == old(out)@ + utf8(s@),
{
    out.extend_from_slice(s.as_bytes());
}

/// Appends `n` spaces.
pub fn push_spaces(out: &mut Vec<u8>, n: usize)
    ensures
        final(out)@ == old(out)@ + spaces(n as nat),
{
    let ghost before = out@;
    let mut i: usize = 0;
    while i < n
        invariant
            i <= n,
            out@ == before + spaces(i as nat),
        decreases n - i,
    {
        out.push(32);
        i += 1;
    }
}

/// Appends `body` right-aligned in `width` columns.
pub fn push_right(out: &mut Vec<u8>, body: &[u8], columns: usize, width: usize)
    ensures
        final(out)@ == old(out)@ + right(body@, columns as nat, width as nat),
{
    if width > columns {
        push_spaces(out, width - columns);
    } else {
    }
    out.extend_from_slice(body);
}

/// Appends `body` centred in `width` columns.
pub fn push_centered(out: &mut Vec<u8>, body: &[u8], columns: usize, width: usize)
    ensures
        final(out)@ == old(out)@ + centered(body@, columns as nat, width as nat),
{
    let pad: usize = if width > columns {
        width - columns
    } else {
        0
    };
    push_spaces(out, pad / 2);
    out.extend_from_slice(body);
    push_spaces(out, pad - pad / 2);
}

/// The decimal digits of `n`.
pub fn decimal_digits(n: u128) -> (digits: Vec<u8>)
    ensures
        digits@ == decimal(n as nat),
{
    let mut reversed: Vec<u8> = Vec::new();
    let mut rest: u128 = n;
    while rest >= 10
        invariant
            decimal(n as nat) == decimal(rest as nat) + reversed@.reverse(),
        decreases rest,
    {
        let low: u8 = (rest % 10) as u8;
        reversed.push(48 + low);
        rest = rest / 10;
    }
    reversed.push(48 + rest as u8);
    let mut digits: Vec<u8> = Vec::new();
    let mut i: usize = reversed.len();
    while i > 0
        invariant
            i <= reversed.len(),
            digits@ == reversed@.reverse().subrange(0, reversed.len() - i),
        decreases i,
    {
        i -= 1;
        digits.push(reversed[i]);
    }
    digits
}

/// `n / d` rounded to the nearest integer, a tie going to the even neighbour.
pub fn rounded(n: u128, d: u128) -> (q: u128)
    requires
        d > 0,
    ensures
        q == round_div(n as nat, d as nat),
{
    let q: u128 = n / d;
    let r: u128 = n % d;
    if r > d - r || (r == d - r && q % 2 == 1) {
        assert(q <= n / 2) by (nonlinear_arith)
            requires
                q == n / d,
                d >= 2,
        ;
        q + 1
    } else {
        q
    }
}

/// The digits of a count of tenths, with one fractional digit.
pub fn fixed_1_digits(tenths: u128) -> (digits: Vec<u8>)
    ensures
        digits@ == fixed_1(tenths as nat),
{
    let mut digits = decimal_digits(tenths / 10);
    digits.push(46);
    digits.push(48 + (tenths % 10) as u8);
    digits
}

/// The digits of a count of thousandths, with three fractional digits.
pub fn fixed_3_digits(thousandths: u128) -> (digits: Vec<u8>)
    ensures
        digits@ == fixed_3(thousandths as nat),
{
    let mut digits = decimal_digits(thousandths / 1000);
    digits.push(46);
    digits.push(48 + (thousandths / 100 % 10) as u8);
    digits.push(48 + (thousandths / 10 % 10) as u8);
    digits.push(48 + (thousandths % 10) as u8);
    digits
}

} // verus!
