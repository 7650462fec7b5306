//! Reading a single value from a line of text: a decimal number, a count,
//! a flag.

use vstd::prelude::*;
use crate::num::{fit, Num};
use crate::render::spec_ten_to;
use crate::text::chars_of;

verus! {

/// The whole part from which a number is beyond every `Num`.
pub const WHOLE_CAP: u128 = 10_000_000_000_000;

/// A flag is set by the word `True`, and by nothing else.
pub fn parse_flag(line: &str) -> (r: bool)
    ensures
        r == (line@ == "True"@),
{
    line.to_owned() == "True".to_owned()
}

/// The value of a digit; none of another character.
pub open spec fn spec_digit_value(c: char) -> Option<int> {
    if c == '0' {
        Some(0)
    } else if c == '1' {
        Some(1)
    } else if c == '2' {
        Some(2)
    } else if c == '3' {
        Some(3)
    } else if c == '4' {
        Some(4)
    } else if c == '5' {
        Some(5)
    } else if c == '6' {
        Some(6)
    } else if c == '7' {
        Some(7)
    } else if c == '8' {
        Some(8)
    } else if c == '9' {
        Some(9)
    } else {
        None
    }
}

/// The value of a digit; none of another character.
pub fn digit_value(c: char) -> (r: Option<u8>)
    ensures
        r is Some == spec_digit_value(c) is Some,
        r is Some ==> r->0 == spec_digit_value(c)->0 && r->0 < 10,
{
    if c == '0' {
        Some(0)
    } else if c == '1' {
        Some(1)
    } else if c == '2' {
        Some(2)
    } else if c == '3' {
        Some(3)
    } else if c == '4' {
        Some(4)
    } else if c == '5' {
        Some(5)
    } else if c == '6' {
        Some(6)
    } else if c == '7' {
        Some(7)
    } else if c == '8' {
        Some(8)
    } else if c == '9' {
        Some(9)
    } else {
        None
    }
}

/// Whether every character is a digit.
pub open spec fn spec_all_digits(s: Seq<char>) -> bool {
    forall|i: int| 0 <= i < s.len() ==> spec_digit_value(#[trigger] s[i]) is Some
}

/// The number that some digits write.
pub open spec fn spec_digits_value(s: Seq<char>) -> int
    decreases s.len(),
{
    if s.len() == 0 {
        0
    } else {
        spec_digits_value(s.drop_last()) * 10 + spec_digit_value(s.last()).unwrap_or(0)
    }
}

/// The number of digits with which a text begins.
pub open spec fn spec_digit_run(s: Seq<char>) -> int
    decreases s.len(),
{
    if s.len() == 0 || spec_digit_value(s[0]) is None {
        0
    } else {
        1 + spec_digit_run(s.skip(1))
    }
}

/// The millionths that the digits after the point write: the first six
/// count, the others are cut.
pub open spec fn spec_fraction(frac: Seq<char>) -> int {
    let kept = if frac.len() > 6 {
        frac.take(6)
    } else {
        frac
    };
    spec_digits_value(kept) * spec_ten_to(6 - kept.len())
}

/// The millionths that a decimal number without sign writes: digits, then
/// perhaps a point and more digits, with a digit on one side of the point
/// at least. None where the text is not of that form.
pub open spec fn spec_unsigned(s: Seq<char>) -> Option<int> {
    let run = spec_digit_run(s);
    let whole = s.take(run);
    let rest = s.skip(run);
    if rest.len() == 0 {
        if run > 0 {
            Some(spec_digits_value(whole) * 1_000_000)
        } else {
            None
        }
    } else if rest[0] == '.' && spec_all_digits(rest.skip(1)) && run + rest.len() > 1 {
        Some(spec_digits_value(whole) * 1_000_000 + spec_fraction(rest.skip(1)))
    } else {
        None
    }
}

/// The number that a decimal text writes, with or without a sign before it.
/// None where the text is not a decimal number; undefined where the number
/// leaves the range.
pub open spec fn spec_parse_decimal(s: Seq<char>) -> Option<Num> {
    if s.len() > 0 && s[0] == '-' {
        match spec_unsigned(s.skip(1)) {
            Some(v) => Some(fit(-v)),
            None => None,
        }
    } else if s.len() > 0 && s[0] == '+' {
        match spec_unsigned(s.skip(1)) {
            Some(v) => Some(fit(v)),
            None => None,
        }
    } else {
        match spec_unsigned(s) {
            Some(v) => Some(fit(v)),
            None => None,
        }
    }
}

/// A text without its grouping separators, the commas.
pub open spec fn spec_ungrouped(s: Seq<char>) -> Seq<char> {
    s.filter(|c: char| c != ',')
}

/// A text without its grouping separators, the commas.
pub fn ungrouped(s: &Vec<char>) -> (r: Vec<char>)
    ensures
        r@ == spec_ungrouped(s@),
{
    let mut out: Vec<char> = Vec::new();
    let mut i: usize = 0;
    let ghost keep = |c: char| c != ',';
    proof {
        reveal(Seq::filter);
    }
    while i < s.len()
        invariant
            i <= s.len(),
            keep == (|c: char| c != ','),
            out@ == s@.take(i as int).filter(keep),
        decreases s.len() - i,
    {
        proof {
            assert(s@.take(i + 1) =~= s@.take(i as int).push(s[i as int]));
            lemma_filter_push(s@.take(i as int), s[i as int], keep);
        }
        if s[i] != ',' {
            out.push(s[i]);
        }
        i += 1;
    }
    assert(s@.take(s.len() as int) == s@);
    out
}

/// Filtering a sequence with one more element filters the element.
pub proof fn lemma_filter_push(s: Seq<char>, c: char, keep: spec_fn(char) -> bool)
    ensures
        s.push(c).filter(keep) == if keep(c) {
            s.filter(keep).push(c)
        } else {
            s.filter(keep)
        },
{
    reveal(Seq::filter);
    assert(s.push(c).drop_last() =~= s);
}

/// The digits from `from` on that begin the text, as a number, none above
/// `WHOLE_CAP`; and where they end.
fn read_digits(s: &Vec<char>, from: usize) -> (r: (u128, usize))
    requires
        from <= s.len(),
    ensures
        from <= r.1 <= s.len(),
        r.1 - from == spec_digit_run(s@.skip(from as int)),
        spec_all_digits(s@.subrange(from as int, r.1 as int)),
        r.0 == if spec_digits_value(s@.subrange(from as int, r.1 as int)) < WHOLE_CAP {
            spec_digits_value(s@.subrange(from as int, r.1 as int))
        } else {
            WHOLE_CAP as int
        },
{
    let mut acc: u128 = 0;
    let mut i: usize = from;
    loop
        invariant
            from <= i <= s.len(),
            spec_digit_run(s@.skip(from as int)) == (i - from) + spec_digit_run(s@.skip(i as int)),
            spec_all_digits(s@.subrange(from as int, i as int)),
            acc <= WHOLE_CAP,
            acc == if spec_digits_value(s@.subrange(from as int, i as int)) < WHOLE_CAP {
                spec_digits_value(s@.subrange(from as int, i as int))
            } else {
                WHOLE_CAP as int
            },
        ensures
            from <= i <= s.len(),
            i - from == spec_digit_run(s@.skip(from as int)),
            spec_all_digits(s@.subrange(from as int, i as int)),
            acc == if spec_digits_value(s@.subrange(from as int, i as int)) < WHOLE_CAP {
                spec_digits_value(s@.subrange(from as int, i as int))
            } else {
                WHOLE_CAP as int
            },
        decreases s.len() - i,
    {
        if i >= s.len() {
            break;
        }
        let d = digit_value(s[i]);
        match d {
            None => {
                break;
            },
            Some(v) => {
                proof {
                    let before = s@.subrange(from as int, i as int);
                    let after = s@.subrange(from as int, i + 1);
                    assert(after.drop_last() =~= before);
                    assert(s@.skip(i as int).skip(1) =~= s@.skip(i + 1));
                    lemma_digits_value_not_negative(before);
                }
                let next: u128 = acc * 10 + v as u128;
                acc = if next > WHOLE_CAP {
                    WHOLE_CAP
                } else {
                    next
                };
                i += 1;
            },
        }
    }
    (acc, i)
}

/// The digits with which a text begins are digits, and what follows them is
/// none.
pub proof fn lemma_digit_run(s: Seq<char>)
    ensures
        0 <= spec_digit_run(s) <= s.len(),
        spec_all_digits(s.take(spec_digit_run(s))),
        spec_digit_run(s) < s.len() ==> spec_digit_value(s[spec_digit_run(s)]) is None,
    decreases s.len(),
{
    if s.len() > 0 && spec_digit_value(s[0]) is Some {
        let rest = s.skip(1);
        lemma_digit_run(rest);
        let run = spec_digit_run(s);
        assert forall|i: int| 0 <= i < run implies spec_digit_value(
            #[trigger] s.take(run)[i],
        ) is Some by {
            if i > 0 {
                assert(rest.take(run - 1)[i - 1] == s.take(run)[i]);
            }
        }
    }
}

/// Digits write no negative number.
pub proof fn lemma_digits_value_not_negative(s: Seq<char>)
    ensures
        spec_digits_value(s) >= 0,
    decreases s.len(),
{
    if s.len() > 0 {
        lemma_digits_value_not_negative(s.drop_last());
    }
}

/// The millionths that the digits from `from` to the end write after the
/// point; none where a character among them is no digit.
fn read_fraction(s: &Vec<char>, from: usize) -> (r: Option<u32>)
    requires
        from <= s.len(),
    ensures
        r is Some == spec_all_digits(s@.skip(from as int)),
        r is Some ==> r->0 == spec_fraction(s@.skip(from as int)) && r->0 < 1_000_000,
{
    let (value, end) = read_digits_short(s, from);
    let ghost frac = s@.skip(from as int);
    let (_, stop) = read_digits(s, end);
    if stop < s.len() {
        proof {
            lemma_digit_run(s@.skip(end as int));
            assert(frac[stop - from] == s[stop as int]);
        }
        return None;
    }
    proof {
        assert forall|i: int| 0 <= i < frac.len() implies spec_digit_value(
            #[trigger] frac[i],
        ) is Some by {
            if i >= end - from {
                assert(s@.subrange(end as int, stop as int)[i - (end - from)] == frac[i]);
            }
        }
        let kept = if frac.len() > 6 {
            frac.take(6)
        } else {
            frac
        };
        assert(kept =~= s@.subrange(from as int, end as int));
    }
    let count = end - from;
    let scaled: u32 = if count == 0 {
        value * 1_000_000
    } else if count == 1 {
        value * 100_000
    } else if count == 2 {
        value * 10_000
    } else if count == 3 {
        value * 1_000
    } else if count == 4 {
        value * 100
    } else if count == 5 {
        value * 10
    } else {
        value
    };
    Some(scaled)
}

/// Up to six digits from `from` on, as a number; and where they end.
fn read_digits_short(s: &Vec<char>, from: usize) -> (r: (u32, usize))
    requires
        from <= s.len(),
    ensures
        from <= r.1 <= s.len(),
        r.1 - from <= 6,
        spec_all_digits(s@.subrange(from as int, r.1 as int)),
        r.0 == spec_digits_value(s@.subrange(from as int, r.1 as int)),
        r.0 < spec_ten_to(r.1 - from),
        r.1 - from < 6 ==> r.1 == s.len() || spec_digit_value(s[r.1 as int]) is None,
{
    let mut acc: u32 = 0;
    let mut i: usize = from;
    while i < s.len() && i - from < 6
        invariant
            from <= i <= s.len(),
            i - from <= 6,
            spec_all_digits(s@.subrange(from as int, i as int)),
            acc == spec_digits_value(s@.subrange(from as int, i as int)),
            acc < spec_ten_to(i - from),
        ensures
            from <= i <= s.len(),
            i - from <= 6,
            spec_all_digits(s@.subrange(from as int, i as int)),
            acc == spec_digits_value(s@.subrange(from as int, i as int)),
            acc < spec_ten_to(i - from),
            i - from < 6 ==> i == s.len() || spec_digit_value(s[i as int]) is None,
        decreases s.len() - i,
    {
        match digit_value(s[i]) {
            None => {
                break;
            },
            Some(v) => {
                proof {
                    let before = s@.subrange(from as int, i as int);
                    let after = s@.subrange(from as int, i + 1);
                    assert(after.drop_last() =~= before);
                }
                acc = acc * 10 + v as u32;
                i += 1;
            },
        }
    }
    (acc, i)
}

/// The millionths that a decimal number without sign writes from `from` on,
/// none above a million times `WHOLE_CAP`; none where the text is not of
/// that form.
fn read_unsigned(s: &Vec<char>, from: usize) -> (r: Option<u128>)
    requires
        from <= s.len(),
    ensures
        r is Some == spec_unsigned(s@.skip(from as int)) is Some,
        r is Some ==> r->0 == if spec_unsigned(s@.skip(from as int))->0 < WHOLE_CAP * 1_000_000 {
            spec_unsigned(s@.skip(from as int))->0
        } else {
            WHOLE_CAP * 1_000_000
        },
{
    let ghost text = s@.skip(from as int);
    let (whole, end) = read_digits(s, from);
    proof {
        assert(text.take(end - from) =~= s@.subrange(from as int, end as int));
        assert(text.skip(end - from) =~= s@.skip(end as int));
        lemma_digits_value_not_negative(s@.subrange(from as int, end as int));
    }
    if end == s.len() {
        if end > from {
            Some(whole * 1_000_000)
        } else {
            None
        }
    } else if s[end] == '.' {
        assert(s@.skip(end as int).skip(1) =~= s@.skip(end + 1));
        match read_fraction(s, end + 1) {
            Some(frac) => {
                if (end - from) + (s.len() - end) > 1 {
                    if whole == WHOLE_CAP {
                        Some(WHOLE_CAP * 1_000_000)
                    } else {
                        Some(whole * 1_000_000 + frac as u128)
                    }
                } else {
                    None
                }
            },
            None => None,
        }
    } else {
        None
    }
}

/// Reads a decimal number: digits, perhaps with a point among them, before
/// them, or after them, and perhaps a sign before all. Commas that group
/// the digits are passed over. The number is cut after the sixth decimal.
/// None where the text is not a decimal number; undefined where the number
/// leaves the range.
pub fn parse_decimal(line: &str) -> (r: Option<Num>)
    ensures
        r == spec_parse_decimal(spec_ungrouped(line@)),
{
    let raw = chars_of(line);
    let s = ungrouped(&raw);
    let negative = s.len() > 0 && s[0] == '-';
    let signed = s.len() > 0 && (s[0] == '-' || s[0] == '+');
    let from: usize = if signed {
        1
    } else {
        0
    };
    proof {
        assert(s@.skip(0) =~= s@);
    }
    match read_unsigned(&s, from) {
        None => None,
        Some(v) => {
            if negative {
                if v > 9_223_372_036_854_775_808 {
                    Some(Num::Undefined)
                } else if v == 9_223_372_036_854_775_808 {
                    Some(Num::Micro(i64::MIN))
                } else {
                    Some(Num::Micro(-(v as i64)))
                }
            } else if v > 9_223_372_036_854_775_807 {
                Some(Num::Undefined)
            } else {
                Some(Num::Micro(v as i64))
            }
        },
    }
}

/// The count that a text writes: digits, perhaps with a plus sign before
/// them. None where the text is not of that form, or the number is beyond a
/// `u32`.
pub open spec fn spec_parse_count(s: Seq<char>) -> Option<u32> {
    let digits = if s.len() > 0 && s[0] == '+' {
        s.skip(1)
    } else {
        s
    };
    if digits.len() > 0 && spec_all_digits(digits) && spec_digits_value(digits) <= u32::MAX {
        Some(spec_digits_value(digits) as u32)
    } else {
        None
    }
}

/// Reads a count: digits, perhaps with a plus sign before them. None where
/// the text is not of that form, or the number is beyond a `u32`.
pub fn parse_count(line: &str) -> (r: Option<u32>)
    ensures
        r == spec_parse_count(line@),
{
    let s = chars_of(line);
    let from: usize = if s.len() > 0 && s[0] == '+' {
        1
    } else {
        0
    };
    let ghost digits = s@.skip(from as int);
    proof {
        assert(s@.skip(0) =~= s@);
    }
    let (value, end) = read_digits(&s, from);
    if end < s.len() {
        proof {
            lemma_digit_run(digits);
        }
        None
    } else if end == from {
        None
    } else if value > u32::MAX as u128 {
        None
    } else {
        Some(value as u32)
    }
}

/// A part of the whole from a number of hundredths.
pub open spec fn spec_percent(hundredths: Num) -> Num {
    hundredths.over(Num::Micro(100_000_000))
}

/// A part of the whole from a number of hundredths.
#[verifier::when_used_as_spec(spec_percent)]
pub fn percent(hundredths: Num) -> (r: Num)
    ensures
        r == spec_percent(hundredths),
{
    hundredths.over(Num::Micro(100_000_000))
}

} // verus!
