//! Numbers in decimal notation, and the whole number that one narrows to.
//!
//! The notation is an optional `-`, digits, an optional fraction (`.` and
//! digits) and an optional exponent (`e` or `E`, an optional sign, digits).
//! Beside it stand `inf` and `-inf`, for what lies beyond every number.

use vstd::prelude::*;
use crate::text::{chars_of, same_text};

verus! {

/// Whether `c` is one of `0` to `9`.
pub open spec fn is_digit(c: char) -> bool {
    48 <= c as u32 <= 57
}

/// The number that the digit `c` writes.
pub open spec fn digit_value(c: char) -> nat {
    (c as u32 - 48) as nat
}

/// Where the run of digits that starts at `from` ends.
pub open spec fn digits_end(s: Seq<char>, from: int) -> int
    decreases s.len() - from,
{
    if 0 <= from < s.len() && is_digit(s[from]) {
        digits_end(s, from + 1)
    } else {
        from
    }
}

/// The number that a sequence of digits writes.
pub open spec fn number_of(digits: Seq<char>) -> nat
    decreases digits.len(),
{
    if digits.len() == 0 {
        0
    } else {
        number_of(digits.drop_last()) * 10 + digit_value(digits.last())
    }
}

/// A number in decimal notation, taken apart: its sign, its digits without
/// the point, and how many of them stand before the point once the exponent
/// has been applied (more than there are digits, or fewer than none, where
/// the exponent moves the point outside them).
pub struct Decimal {
    pub negative: bool,
    pub digits: Seq<char>,
    pub point: int,
}

/// `s` taken apart, or `None` where `s` is not in the notation.
pub open spec fn decimal_of(s: Seq<char>) -> Option<Decimal> {
    let a = if s.len() > 0 && s[0] == '-' { 1int } else { 0int };
    let b = digits_end(s, a);
    let c = if b < s.len() && s[b] == '.' { digits_end(s, b + 1) } else { b };
    let fraction = if c > b { s.subrange(b + 1, c) } else { Seq::empty() };
    let digits = s.subrange(a, b) + fraction;
    let has_exponent = c < s.len() && (s[c] == 'e' || s[c] == 'E');
    let signed = has_exponent && c + 1 < s.len() && (s[c + 1] == '+' || s[c + 1] == '-');
    let d = if signed { c + 2 } else { c + 1 };
    let e = digits_end(s, d);
    if b == a || c == b + 1 {
        None
    } else if !has_exponent {
        if c == s.len() {
            Some(Decimal { negative: a == 1, digits, point: b - a })
        } else {
            None
        }
    } else if e > d && e == s.len() {
        let size = number_of(s.subrange(d, e)) as int;
        let exponent = if signed && s[c + 1] == '-' { -size } else { size };
        Some(Decimal { negative: a == 1, digits, point: b - a + exponent })
    } else {
        None
    }
}

/// The digits before the point: the first `point` of `digits`, with zeros
/// where the point lies beyond them.
pub open spec fn whole_digits(digits: Seq<char>, point: int) -> Seq<char> {
    Seq::new(
        if point > 0 { point as nat } else { 0 },
        |i: int| if i < digits.len() { digits[i] } else { '0' },
    )
}

/// `value` held to the range of `i64`.
pub open spec fn saturated(value: int) -> int {
    if value < i64::MIN {
        i64::MIN as int
    } else if value > i64::MAX {
        i64::MAX as int
    } else {
        value
    }
}

/// The whole number that the decimal notation `s` narrows to: its value with
/// the fraction cut off, held to the range of `i64`. `inf` and `-inf` narrow
/// to the ends of that range, and any other text outside the notation to 0.
pub open spec fn truncated(s: Seq<char>) -> int {
    if s == "inf"@ {
        i64::MAX as int
    } else if s == "-inf"@ {
        i64::MIN as int
    } else {
        match decimal_of(s) {
            None => 0,
            Some(d) => {
                let size = number_of(whole_digits(d.digits, d.point)) as int;
                saturated(if d.negative { -size } else { size })
            },
        }
    }
}

/// The size from which a number is outside `i64` whatever its sign.
pub const LIMIT: u128 = 9223372036854775808;

/// An exponent of more digits than this is as good as infinite.
pub const EXPONENT_CAP: u128 = 1000000000000000000000000000000;

proof fn lemma_whole_digits_step(digits: Seq<char>, point: int)
    requires
        point >= 0,
    ensures
        number_of(whole_digits(digits, point + 1)) == number_of(whole_digits(digits, point)) * 10
            + (if point < digits.len() {
            digit_value(digits[point])
        } else {
            0
        }),
{
    assert(whole_digits(digits, point + 1).drop_last() == whole_digits(digits, point));
}

proof fn lemma_whole_digits_grow(digits: Seq<char>, from: int, to: int)
    requires
        0 <= from <= to,
    ensures
        number_of(whole_digits(digits, from)) <= number_of(whole_digits(digits, to)),
    decreases to - from,
{
    if from < to {
        lemma_whole_digits_grow(digits, from, to - 1);
        lemma_whole_digits_step(digits, to - 1);
    }
}

proof fn lemma_whole_digits_zero(digits: Seq<char>, from: int, to: int)
    requires
        digits.len() <= from <= to,
        number_of(whole_digits(digits, from)) == 0,
    ensures
        number_of(whole_digits(digits, to)) == 0,
    decreases to - from,
{
    if from < to {
        lemma_whole_digits_zero(digits, from, to - 1);
        lemma_whole_digits_step(digits, to - 1);
    }
}

fn is_digit_char(c: char) -> (r: bool)
    ensures
        r == is_digit(c),
{
    let u: u32 = c as u32;
    48 <= u && u <= 57
}

fn scan_digits(s: &Vec<char>, from: usize) -> (end: usize)
    requires
        from <= s.len(),
    ensures
        end == digits_end(s@, from as int),
        from <= end <= s.len(),
        forall|i: int| from <= i < end ==> is_digit(#[trigger] s@[i]),
{
    let mut i: usize = from;
    while i < s.len() && is_digit_char(s[i])
        invariant
            from <= i <= s.len(),
            digits_end(s@, from as int) == digits_end(s@, i as int),
            forall|k: int| from <= k < i ==> is_digit(#[trigger] s@[k]),
        decreases s.len() - i,
    {
        i = i + 1;
    }
    i
}

fn append_range(out: &mut Vec<char>, s: &Vec<char>, from: usize, to: usize)
    requires
        from <= to <= s.len(),
    ensures
        final(out)@ == old(out)@ + s@.subrange(from as int, to as int),
{
    let mut i: usize = from;
    while i < to
        invariant
            from <= i <= to <= s.len(),
            out@ == old(out)@ + s@.subrange(from as int, i as int),
        decreases to - i,
    {
        out.push(s[i]);
        i = i + 1;
    }
}

/// The number that the digits of `s` from `from` to `to` write, or `None`
/// where it is above `EXPONENT_CAP`.
fn exponent_size(s: &Vec<char>, from: usize, to: usize) -> (r: Option<u128>)
    requires
        from <= to <= s.len(),
        forall|i: int| from <= i < to ==> is_digit(#[trigger] s@[i]),
    ensures
        match r {
            Some(size) => size == number_of(s@.subrange(from as int, to as int)) && size
                <= EXPONENT_CAP,
            None => number_of(s@.subrange(from as int, to as int)) > EXPONENT_CAP,
        },
{
    let mut size: u128 = 0;
    let mut i: usize = from;
    while i < to
        invariant
            from <= i <= to <= s.len(),
            forall|k: int| from <= k < to ==> is_digit(#[trigger] s@[k]),
            size == number_of(s@.subrange(from as int, i as int)),
            size <= EXPONENT_CAP,
        decreases to - i,
    {
        let digit: u128 = (s[i] as u32 - 48) as u128;
        proof {
            assert(s@.subrange(from as int, i + 1).drop_last() == s@.subrange(
                from as int,
                i as int,
            ));
        }
        size = size * 10 + digit;
        i = i + 1;
        if size > EXPONENT_CAP {
            proof {
                lemma_number_of_grows(s@.subrange(from as int, to as int), i - from);
                assert(s@.subrange(from as int, to as int).take(i - from) == s@.subrange(
                    from as int,
                    i as int,
                ));
            }
            return None;
        }
    }
    Some(size)
}

proof fn lemma_number_of_grows(digits: Seq<char>, count: int)
    requires
        0 <= count <= digits.len(),
    ensures
        number_of(digits.take(count)) <= number_of(digits),
    decreases digits.len() - count,
{
    if count < digits.len() {
        lemma_number_of_grows(digits, count + 1);
        assert(digits.take(count + 1).drop_last() == digits.take(count));
    } else {
        assert(digits.take(count) == digits);
    }
}

/// The number that the first `point` of `digits` write, or `None` where it is
/// above `LIMIT`. Where the true point lies beyond `point`, `point` is so far
/// beyond the digits that the answer is the same.
fn whole_size(digits: &Vec<char>, point: i128, Ghost(true_point): Ghost<int>) -> (r: Option<u128>)
    requires
        forall|i: int| 0 <= i < digits.len() ==> is_digit(#[trigger] digits@[i]),
        point <= true_point,
        point < true_point ==> point - digits.len() > LIMIT,
    ensures
        match r {
            Some(size) => size == number_of(whole_digits(digits@, true_point)) && size <= LIMIT,
            None => number_of(whole_digits(digits@, true_point)) > LIMIT,
        },
{
    let mut size: u128 = 0;
    let mut i: i128 = 0;
    if point <= 0 {
        proof {
            if true_point > 0 {
                lemma_whole_digits_zero(digits@, 0, true_point);
            }
        }
        return Some(0);
    }
    while i < point
        invariant
            0 <= i <= point <= true_point,
            forall|k: int| 0 <= k < digits.len() ==> is_digit(#[trigger] digits@[k]),
            size == number_of(whole_digits(digits@, i as int)),
            size <= LIMIT,
            i > digits.len() ==> size >= i - digits.len(),
        decreases point - i,
    {
        let past: bool = i >= digits.len() as i128;
        if past && size == 0 {
            proof {
                lemma_whole_digits_zero(digits@, i as int, true_point);
            }
            return Some(0);
        }
        let digit: u128 = if past {
            0
        } else {
            (digits[i as usize] as u32 - 48) as u128
        };
        proof {
            lemma_whole_digits_step(digits@, i as int);
        }
        size = size * 10 + digit;
        i = i + 1;
        if size > LIMIT {
            proof {
                lemma_whole_digits_grow(digits@, i as int, true_point);
            }
            return None;
        }
    }
    Some(size)
}

/// `size` with its sign, held to the range of `i64`.
fn with_sign(negative: bool, size: Option<u128>, Ghost(true_size): Ghost<int>) -> (r: i64)
    requires
        match size {
            Some(known) => known == true_size && known <= LIMIT,
            None => true_size > LIMIT,
        },
    ensures
        r == saturated(if negative { -true_size } else { true_size }),
{
    match size {
        Some(known) => {
            if negative {
                if known == LIMIT {
                    i64::MIN
                } else {
                    -(known as i64)
                }
            } else if known == LIMIT {
                i64::MAX
            } else {
                known as i64
            }
        },
        None => if negative {
            i64::MIN
        } else {
            i64::MAX
        },
    }
}

/// Narrows a number in decimal notation to a whole number: the fraction is
/// cut off, and what lies outside `i64` becomes the nearest end of its range.
/// `inf` and `-inf` give the ends of the range; any other text that is not in
/// the notation gives 0.
#[verifier::rlimit(50)]
pub fn truncate(text: &str) -> (r: i64)
    ensures
        r == truncated(text@),
{
    if same_text(text, "inf") {
        return i64::MAX;
    }
    if same_text(text, "-inf") {
        return i64::MIN;
    }
    let s = chars_of(text);
    let n: usize = s.len();
    let a: usize = if n > 0 && s[0] == '-' { 1 } else { 0 };
    let b: usize = scan_digits(&s, a);
    let c: usize = if b < n && s[b] == '.' { scan_digits(&s, b + 1) } else { b };
    if b == a || c - b == 1 {
        return 0;
    }
    let mut digits: Vec<char> = Vec::new();
    append_range(&mut digits, &s, a, b);
    if c > b {
        append_range(&mut digits, &s, b + 1, c);
    }
    let negative: bool = a == 1;
    let has_exponent: bool = c < n && (s[c] == 'e' || s[c] == 'E');
    if !has_exponent {
        if c != n {
            return 0;
        }
        let point: i128 = (b - a) as i128;
        let size = whole_size(&digits, point, Ghost(point as int));
        return with_sign(negative, size, Ghost(number_of(whole_digits(digits@, point as int)) as int));
    }
    let signed: bool = c + 1 < n && (s[c + 1] == '+' || s[c + 1] == '-');
    let d: usize = if signed { c + 2 } else { c + 1 };
    let e: usize = scan_digits(&s, d);
    if e == d || e != n {
        return 0;
    }
    let down: bool = signed && s[c + 1] == '-';
    let whole: i128 = (b - a) as i128;
    let ghost exponent = number_of(s@.subrange(d as int, e as int)) as int;
    let ghost true_point = if down { whole - exponent } else { whole + exponent };
    let size = match exponent_size(&s, d, e) {
        Some(known) => {
            let point: i128 = if down { whole - known as i128 } else { whole + known as i128 };
            whole_size(&digits, point, Ghost(true_point))
        },
        None => if down {
            Some(0)
        } else {
            whole_size(&digits, whole + EXPONENT_CAP as i128, Ghost(true_point))
        },
    };
    with_sign(negative, size, Ghost(number_of(whole_digits(digits@, true_point)) as int))
}

} // verus!
