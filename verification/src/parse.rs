//! Reading text: decimal numbers, the lines of a file, the fields of a line.

use crate::text::{decimal, digit};
use vstd::prelude::*;
use vstd::slice::slice_subrange;

verus! {

/// Whether `b` is an ASCII digit.
pub open spec fn is_digit(b: u8) -> bool {
    48 <= b <= 57
}

/// Whether every byte of `s` is an ASCII digit.
pub open spec fn all_digits(s: Seq<u8>) -> bool {
    forall|i: int| 0 <= i < s.len() ==> is_digit(#[trigger] s[i])
}

/// What a byte counts for as a decimal digit; a byte that is none counts 0.
pub open spec fn digit_value(b: u8) -> nat {
    if is_digit(b) {
        (b - 48) as nat
    } else {
        0
    }
}

/// The number that a string of digits stands for.
pub open spec fn digits_value(s: Seq<u8>) -> nat
    decreases s.len(),
{
    if s.len() == 0 {
        0
    } else {
        digits_value(s.drop_last()) * 10 + digit_value(s.last())
    }
}

/// The number that `s` stands for if `s` is one or more digits and the
/// number is at most `max`.
pub open spec fn number(s: Seq<u8>, max: nat) -> Option<nat> {
    if s.len() > 0 && all_digits(s) && digits_value(s) <= max {
        Some(digits_value(s))
    } else {
        None
    }
}

/// An unsigned number as the kernel's files write it and as `str::parse`
/// reads it: digits, with or without a `+` before them.
pub open spec fn unsigned(s: Seq<u8>, max: nat) -> Option<nat> {
    if s.len() > 0 && s[0] == 43 {
        number(s.subrange(1, s.len() as int), max)
    } else {
        number(s, max)
    }
}

/// A signed number: digits, with or without a sign before them, within
/// `-below ..= max`.
pub open spec fn signed(s: Seq<u8>, below: nat, max: nat) -> Option<int> {
    if s.len() > 0 && s[0] == 45 {
        match number(s.subrange(1, s.len() as int), below) {
            Some(magnitude) => Some(-(magnitude as int)),
            None => None,
        }
    } else {
        match unsigned(s, max) {
            Some(value) => Some(value as int),
            None => None,
        }
    }
}

/// The first index at or after `from` that holds `b`, or the length of `s`
/// where there is none.
pub open spec fn find(s: Seq<u8>, b: u8, from: int) -> int
    decreases s.len() - from,
{
    if from < 0 || from >= s.len() {
        s.len() as int
    } else if s[from] == b {
        from
    } else {
        find(s, b, from + 1)
    }
}

/// The lines of `content` from the byte at `start` on. A line ends before a
/// line feed or at the end of the content; nothing follows a final line feed.
pub open spec fn lines_from(content: Seq<u8>, start: int) -> Seq<Seq<u8>>
    decreases content.len() - start,
{
    if start < 0 || start >= content.len() {
        Seq::empty()
    } else {
        let end = find(content, 10, start);
        if start <= end < content.len() {
            seq![content.subrange(start, end)] + lines_from(content, end + 1)
        } else {
            seq![content.subrange(start, content.len() as int)]
        }
    }
}

/// The lines of `content`.
pub open spec fn lines(content: Seq<u8>) -> Seq<Seq<u8>> {
    lines_from(content, 0)
}

/// The fields of `line` from the byte at `start` on: the stretches without a
/// space in them, as long as they can be made.
pub open spec fn fields_from(line: Seq<u8>, start: int) -> Seq<Seq<u8>>
    decreases line.len() - start,
{
    if start < 0 || start >= line.len() {
        Seq::empty()
    } else if line[start] == 32 {
        fields_from(line, start + 1)
    } else {
        let end = find(line, 32, start);
        if start < end < line.len() {
            seq![line.subrange(start, end)] + fields_from(line, end)
        } else {
            seq![line.subrange(start, line.len() as int)]
        }
    }
}

/// The fields of `line`: what stands between its spaces.
pub open spec fn fields(line: Seq<u8>) -> Seq<Seq<u8>> {
    fields_from(line, 0)
}

/// The first index at or after `from` that does not hold `b`, or the length
/// of `s` where there is none.
pub open spec fn skip(s: Seq<u8>, b: u8, from: int) -> int
    decreases s.len() - from,
{
    if from < 0 || from >= s.len() {
        s.len() as int
    } else if s[from] != b {
        from
    } else {
        skip(s, b, from + 1)
    }
}

/// Whether `s` is a decimal number: digits, and after them, if anything, a
/// point and more digits.
pub open spec fn is_decimal(s: Seq<u8>) -> bool {
    let point = find(s, 46, 0);
    &&& 0 < point <= s.len()
    &&& all_digits(s.subrange(0, point))
    &&& point == s.len() || (point + 1 < s.len() && all_digits(
        s.subrange(point + 1, s.len() as int),
    ))
}

/// What the digit at `index` counts for, or 0 where `s` ends before it.
pub open spec fn place(s: Seq<u8>, index: int) -> nat {
    if 0 <= index < s.len() {
        digit_value(s[index])
    } else {
        0
    }
}

/// A decimal number in thousandths. Digits after the third fractional one
/// are dropped.
pub open spec fn thousandths(s: Seq<u8>) -> nat {
    let point = find(s, 46, 0);
    digits_value(s.subrange(0, point)) * 1000 + place(s, point + 1) * 100 + place(s, point + 2)
        * 10 + place(s, point + 3)
}

/// Whether `s` begins with `prefix`.
pub open spec fn starts_with(s: Seq<u8>, prefix: Seq<u8>) -> bool {
    s.len() >= prefix.len() && s.subrange(0, prefix.len() as int) == prefix
}

/// `find` stays within the sequence, stops on the byte it looks for, and
/// passes none on its way.
pub proof fn lemma_find(s: Seq<u8>, b: u8, from: int)
    requires
        0 <= from <= s.len(),
    ensures
        from <= find(s, b, from) <= s.len(),
        find(s, b, from) < s.len() ==> s[find(s, b, from)] == b,
        forall|i: int| from <= i < find(s, b, from) ==> s[i] != b,
    decreases s.len() - from,
{
    if from < s.len() && s[from] != b {
        lemma_find(s, b, from + 1);
    }
}

/// A longer string of digits stands for no smaller a number than its
/// beginning.
pub proof fn lemma_digits_value_grows(s: Seq<u8>, k: int)
    requires
        0 <= k <= s.len(),
    ensures
        digits_value(s.subrange(0, k)) <= digits_value(s),
    decreases s.len() - k,
{
    if k == s.len() {
        assert(s.subrange(0, k) =~= s);
    } else {
        let longer = s.subrange(0, k + 1);
        assert(longer.drop_last() =~= s.subrange(0, k));
        lemma_digits_value_grows(s, k + 1);
    }
}

/// What is written as a decimal number is read back as the same number,
/// as long as it is within the limit.
pub proof fn lemma_decimal_is_read_back(n: nat, max: nat)
    requires
        n <= max,
    ensures
        decimal(n).len() > 0,
        all_digits(decimal(n)),
        digits_value(decimal(n)) == n,
        number(decimal(n), max) == Some(n),
        unsigned(decimal(n), max) == Some(n),
    decreases n,
{
    if n >= 10 {
        lemma_decimal_is_read_back(n / 10, max);
        let shorter = decimal(n / 10);
        let written = decimal(n);
        assert(written.drop_last() =~= shorter);
    } else {
        let written = decimal(n);
        assert(digits_value(written.drop_last()) == 0);
    }
}

/// The first index at or after `from` that holds `b`, or the length of `s`.
pub fn find_byte(s: &[u8], b: u8, from: usize) -> (at: usize)
    requires
        from <= s@.len(),
    ensures
        at == find(s@, b, from as int),
        from <= at <= s@.len(),
{
    let mut i: usize = from;
    while i < s.len()
        invariant
            from <= i <= s@.len(),
            find(s@, b, from as int) == find(s@, b, i as int),
        decreases s@.len() - i,
    {
        if s[i] == b {
            return i;
        }
        i += 1;
    }
    i
}

/// The line that begins at `start`, and where the next line begins if there
/// is one.
pub fn next_line(content: &[u8], start: usize) -> (found: (&[u8], Option<usize>))
    requires
        start < content@.len(),
    ensures
        lines_from(content@, start as int).len() > 0,
        lines_from(content@, start as int)[0] == found.0@,
        lines_from(content@, start as int).drop_first() == (match found.1 {
            Some(next) => lines_from(content@, next as int),
            None => Seq::empty(),
        }),
        found.1 matches Some(next) ==> start < next < content@.len(),
{
    let end = find_byte(content, 10, start);
    let line = slice_subrange(content, start, end);
    let next = if end < content.len() && end + 1 < content.len() {
        Some(end + 1)
    } else {
        None
    };
    proof {
        if end < content@.len() {
            assert(lines_from(content@, start as int) =~= seq![line@] + lines_from(
                content@,
                end + 1,
            ));
        }
    }
    (line, next)
}

/// Reads one or more digits as a number no larger than `max`.
pub fn parse_number(s: &[u8], max: u128) -> (value: Option<u128>)
    ensures
        match value {
            Some(v) => number(s@, max as nat) == Some(v as nat),
            None => number(s@, max as nat) is None,
        },
{
    if s.len() == 0 {
        return None;
    }
    let mut acc: u128 = 0;
    let mut i: usize = 0;
    while i < s.len()
        invariant
            i <= s@.len(),
            all_digits(s@.subrange(0, i as int)),
            acc == digits_value(s@.subrange(0, i as int)),
            acc <= max,
        decreases s@.len() - i,
    {
        let b = s[i];
        if b < 48 || b > 57 {
            return None;
        }
        let d: u128 = (b - 48) as u128;
        let ghost longer = s@.subrange(0, i + 1);
        assert(longer.drop_last() =~= s@.subrange(0, i as int));
        if d > max || acc > (max - d) / 10 {
            proof {
                lemma_digits_value_grows(s@, i + 1);
            }
            return None;
        }
        acc = acc * 10 + d;
        i += 1;
    }
    assert(s@.subrange(0, i as int) =~= s@);
    Some(acc)
}

/// Reads an unsigned number no larger than `max`.
pub fn parse_unsigned(s: &[u8], max: u128) -> (value: Option<u128>)
    ensures
        match value {
            Some(v) => unsigned(s@, max as nat) == Some(v as nat),
            None => unsigned(s@, max as nat) is None,
        },
{
    if s.len() > 0 && s[0] == 43 {
        parse_number(slice_subrange(s, 1, s.len()), max)
    } else {
        parse_number(s, max)
    }
}

/// Reads a signed number within `-below ..= max`.
pub fn parse_signed(s: &[u8], below: u64, max: u64) -> (value: Option<i128>)
    ensures
        match value {
            Some(v) => signed(s@, below as nat, max as nat) == Some(v as int),
            None => signed(s@, below as nat, max as nat) is None,
        },
{
    if s.len() > 0 && s[0] == 45 {
        match parse_number(slice_subrange(s, 1, s.len()), below as u128) {
            Some(magnitude) => Some(-(magnitude as i128)),
            None => None,
        }
    } else {
        match parse_unsigned(s, max as u128) {
            Some(v) => Some(v as i128),
            None => None,
        }
    }
}

/// Whether every byte of `s` is a digit.
pub fn is_all_digits(s: &[u8]) -> (yes: bool)
    ensures
        yes == all_digits(s@),
{
    let mut i: usize = 0;
    while i < s.len()
        invariant
            i <= s@.len(),
            forall|j: int| 0 <= j < i ==> is_digit(#[trigger] s@[j]),
        decreases s@.len() - i,
    {
        if s[i] < 48 || s[i] > 57 {
            return false;
        }
        i += 1;
    }
    true
}

/// The first index at or after `from` that does not hold `b`, or the length
/// of `s`.
pub fn skip_byte(s: &[u8], b: u8, from: usize) -> (at: usize)
    requires
        from <= s@.len(),
    ensures
        at == skip(s@, b, from as int),
        from <= at <= s@.len(),
{
    let mut i: usize = from;
    while i < s.len()
        invariant
            from <= i <= s@.len(),
            skip(s@, b, from as int) == skip(s@, b, i as int),
        decreases s@.len() - i,
    {
        if s[i] != b {
            return i;
        }
        i += 1;
    }
    i
}

/// Whether `s` is a decimal number.
pub fn is_decimal_text(s: &[u8]) -> (yes: bool)
    ensures
        yes == is_decimal(s@),
{
    let point = find_byte(s, 46, 0);
    if point == 0 {
        return false;
    }
    if !is_all_digits(slice_subrange(s, 0, point)) {
        return false;
    }
    if point == s.len() {
        return true;
    }
    point + 1 < s.len() && is_all_digits(slice_subrange(s, point + 1, s.len()))
}

fn digit_at(s: &[u8], index: usize) -> (value: u128)
    ensures
        value == place(s@, index as int),
        value <= 9,
{
    if index < s.len() && s[index] >= 48 && s[index] <= 57 {
        (s[index] - 48) as u128
    } else {
        0
    }
}

/// A decimal number in thousandths, where that fits into 64 bits.
pub fn parse_thousandths(s: &[u8]) -> (value: Option<u64>)
    requires
        is_decimal(s@),
    ensures
        match value {
            Some(v) => thousandths(s@) == v,
            None => thousandths(s@) > u64::MAX,
        },
{
    let point = find_byte(s, 46, 0);
    let whole = match parse_number(slice_subrange(s, 0, point), u64::MAX as u128) {
        Some(whole) => whole,
        None => {
            return None;
        },
    };
    let behind = s.len() - point;
    let first = if behind >= 1 {
        digit_at(s, point + 1)
    } else {
        0
    };
    let second = if behind >= 2 {
        digit_at(s, point + 2)
    } else {
        0
    };
    let third = if behind >= 3 {
        digit_at(s, point + 3)
    } else {
        0
    };
    let total: u128 = whole * 1000 + first * 100 + second * 10 + third;
    if total > u64::MAX as u128 {
        None
    } else {
        Some(total as u64)
    }
}

/// Whether `s` begins with `prefix`.
pub fn has_prefix(s: &[u8], prefix: &[u8]) -> (yes: bool)
    ensures
        yes == starts_with(s@, prefix@),
{
    if s.len() < prefix.len() {
        return false;
    }
    let mut i: usize = 0;
    while i < prefix.len()
        invariant
            i <= prefix@.len(),
            prefix@.len() <= s@.len(),
            forall|j: int| 0 <= j < i ==> s@[j] == prefix@[j],
        decreases prefix@.len() - i,
    {
        if s[i] != prefix[i] {
            return false;
        }
        i += 1;
    }
    assert(s@.subrange(0, prefix@.len() as int) =~= prefix@);
    true
}

/// Whether two byte strings are the same.
pub fn same_bytes(a: &[u8], b: &[u8]) -> (yes: bool)
    ensures
        yes == (a@ == b@),
{
    if a.len() != b.len() {
        return false;
    }
    let yes = has_prefix(a, b);
    assert(a@.subrange(0, b@.len() as int) =~= a@);
    yes
}

/// A copy of `s[from..to]`.
pub fn copy_range(s: &[u8], from: usize, to: usize) -> (copy: Vec<u8>)
    requires
        from <= to <= s@.len(),
    ensures
        copy@ == s@.subrange(from as int, to as int),
{
    vstd::slice::slice_to_vec(slice_subrange(s, from, to))
}

/// The fields of `line`, each copied out.
pub fn split_fields(line: &[u8]) -> (parts: Vec<Vec<u8>>)
    ensures
        parts@.len() == fields(line@).len(),
        forall|i: int| 0 <= i < parts@.len() ==> (#[trigger] parts@[i])@ == fields(line@)[i],
{
    let mut parts: Vec<Vec<u8>> = Vec::new();
    let ghost mut found: Seq<Seq<u8>> = Seq::empty();
    let mut at: usize = 0;
    while at < line.len()
        invariant
            at <= line@.len(),
            fields(line@) == found + fields_from(line@, at as int),
            parts@.len() == found.len(),
            forall|i: int| 0 <= i < parts@.len() ==> (#[trigger] parts@[i])@ == found[i],
        decreases line@.len() - at,
    {
        if line[at] == 32 {
            at += 1;
        } else {
            let end = find_byte(line, 32, at);
            proof {
                lemma_find(line@, 32, at as int);
            }
            let part = copy_range(line, at, end);
            proof {
                found = found.push(part@);
            }
            parts.push(part);
            at = end;
        }
    }
    parts
}

} // verus!
