//! The decoder for the source's proprietary date-literal encoding
//! `Date(<year>,<month>,<day>)`. The source emits month and day in
//! zero-based numbering, and the decoder increments both by one before
//! validating the triple as a calendar date; a literal that does not match
//! the pattern, or an adjusted triple that is no valid calendar date,
//! yields no value rather than an error.

use vstd::prelude::*;

use crate::cells::{Cell, DateVal};

verus! {

/// What the date-literal pattern captures out of a haystack: the year,
/// month and day digit groups, as the bytes of the matched text.
pub uninterp spec fn date_captures(s: Seq<char>) -> Option<(Seq<u8>, Seq<u8>, Seq<u8>)>;

/// Relies on regex::Regex::captures with the fixed pattern
/// `Date\((\d{4}),(\d{1,2}),(\d{1,2})\)`: whether a haystack matches, and
/// what the three capture groups hold, depend on the haystack alone. When
/// the whole pattern matches, every group participates, so indexing the
/// captures cannot fail.
#[verifier::external_body]
fn capture_date_parts(s: &str) -> (r: Option<(Vec<u8>, Vec<u8>, Vec<u8>)>)
    ensures
        match r {
            Some(parts) => date_captures(s@) == Some((parts.0@, parts.1@, parts.2@)),
            None => date_captures(s@) is None,
        },
{
    let re = regex::Regex::new(r"Date\((\d{4}),(\d{1,2}),(\d{1,2})\)").unwrap();
    re.captures(s).map(
        |caps|
            (
                caps[1].as_bytes().to_vec(),
                caps[2].as_bytes().to_vec(),
                caps[3].as_bytes().to_vec(),
            ),
    )
}

/// An ASCII decimal digit.
pub open spec fn spec_is_digit(b: u8) -> bool {
    48 <= b <= 57
}

pub open spec fn spec_all_digits(s: Seq<u8>) -> bool {
    forall|i: int| 0 <= i < s.len() ==> spec_is_digit(#[trigger] s[i])
}

/// The value of a string of ASCII decimal digits.
pub open spec fn spec_digits_value(s: Seq<u8>) -> int
    decreases s.len(),
{
    if s.len() == 0 {
        0
    } else {
        spec_digits_value(s.drop_last()) * 10 + (s.last() - 48)
    }
}

/// How one captured field reads as a number: one to four ASCII decimal
/// digits, valued in the obvious way; anything else reads as nothing. The
/// pattern captures at most four digit characters per field, so on every
/// capture this agrees with an unbounded decimal read.
pub open spec fn spec_date_field(s: Seq<u8>) -> Option<u32> {
    if 1 <= s.len() <= 4 && spec_all_digits(s) {
        Some(spec_digits_value(s) as u32)
    } else {
        None
    }
}

pub open spec fn spec_is_leap_year(y: int) -> bool {
    y % 4 == 0 && (y % 100 != 0 || y % 400 == 0)
}

pub open spec fn spec_days_in_month(y: int, m: int) -> int {
    if m == 2 {
        if spec_is_leap_year(y) {
            29
        } else {
            28
        }
    } else if m == 4 || m == 6 || m == 9 || m == 11 {
        30
    } else {
        31
    }
}

/// A valid calendar date within the years the four-digit literal can name.
pub open spec fn spec_valid_date(y: int, m: int, d: int) -> bool {
    0 <= y <= 9999 && 1 <= m <= 12 && 1 <= d <= spec_days_in_month(y, m)
}

/// The date the three captured fields decode to: read each as a number,
/// increment month and day by one (the source's zero-based numbering), and
/// keep the triple only where it is a valid calendar date.
pub open spec fn spec_date_from_parts(y: Seq<u8>, m: Seq<u8>, d: Seq<u8>) -> Option<DateVal> {
    match (spec_date_field(y), spec_date_field(m), spec_date_field(d)) {
        (Some(yv), Some(m0), Some(d0)) => {
            if spec_valid_date(yv as int, m0 + 1, d0 + 1) {
                Some(DateVal { year: yv, month: (m0 + 1) as u32, day: (d0 + 1) as u32 })
            } else {
                None
            }
        },
        _ => None,
    }
}

/// What a date-literal string decodes to.
pub open spec fn spec_decode_date(s: Seq<char>) -> Option<DateVal> {
    match date_captures(s) {
        Some(parts) => spec_date_from_parts(parts.0, parts.1, parts.2),
        None => None,
    }
}

pub open spec fn spec_pow10(n: int) -> int
    decreases n,
{
    if n <= 0 {
        1
    } else {
        10 * spec_pow10(n - 1)
    }
}

proof fn lemma_digits_value_bound(s: Seq<u8>)
    requires
        spec_all_digits(s),
    ensures
        0 <= spec_digits_value(s) < spec_pow10(s.len() as int),
    decreases s.len(),
{
    if s.len() > 0 {
        assert(spec_all_digits(s.drop_last()));
        lemma_digits_value_bound(s.drop_last());
    }
}

proof fn lemma_pow10_small(n: int)
    requires
        0 <= n <= 4,
    ensures
        spec_pow10(n) <= 10000,
{
    assert(spec_pow10(0) == 1);
    assert(spec_pow10(1) == 10);
    assert(spec_pow10(2) == 100);
    assert(spec_pow10(3) == 1000);
    assert(spec_pow10(4) == 10000);
}

/// A captured field that reads as a number reads as at most 9999: the
/// pattern captures at most four digits.
proof fn lemma_date_field_bound(s: Seq<u8>)
    ensures
        match spec_date_field(s) {
            Some(v) => v <= 9999 && v == spec_digits_value(s),
            None => true,
        },
{
    if 1 <= s.len() <= 4 && spec_all_digits(s) {
        lemma_digits_value_bound(s);
        lemma_pow10_small(s.len() as int);
    }
}

/// Read one captured field: one to four ASCII decimal digits.
fn parse_date_field(s: &Vec<u8>) -> (r: Option<u32>)
    ensures
        r == spec_date_field(s@),
{
    if s.len() < 1 || s.len() > 4 {
        return None;
    }
    let mut v: u32 = 0;
    let mut i: usize = 0;
    proof {
        assert(s@.take(0) =~= Seq::<u8>::empty());
    }
    while i < s.len()
        invariant
            1 <= s@.len() <= 4,
            i <= s@.len(),
            spec_all_digits(s@.take(i as int)),
            v == spec_digits_value(s@.take(i as int)),
            v <= 9999,
        decreases s@.len() - i,
    {
        let b = s[i];
        if b < 48 || b > 57 {
            proof {
                assert(!spec_all_digits(s@)) by {
                    assert(!spec_is_digit(s@[i as int]));
                }
            }
            return None;
        }
        proof {
            assert(s@.take(i + 1).drop_last() =~= s@.take(i as int));
            assert(s@.take(i + 1).last() == s@[i as int]);
            assert forall|k: int| 0 <= k < i + 1 implies spec_is_digit(
                #[trigger] s@.take(i + 1)[k],
            ) by {
                assert(s@.take(i + 1)[k] == s@[k]);
                if k < i {
                    assert(s@.take(i as int)[k] == s@[k]);
                }
            }
        }
        v = v * 10 + (b - 48) as u32;
        i += 1;
        proof {
            lemma_digits_value_bound(s@.take(i as int));
            lemma_pow10_small(i as int);
        }
    }
    proof {
        assert(s@.take(i as int) =~= s@);
    }
    Some(v)
}

/// How many days the given month has, under the usual leap-year rule.
fn days_in_month(y: u32, m: u32) -> (r: u32)
    requires
        1 <= m <= 12,
    ensures
        r == spec_days_in_month(y as int, m as int),
{
    if m == 2 {
        if y % 4 == 0 && (y % 100 != 0 || y % 400 == 0) {
            29
        } else {
            28
        }
    } else if m == 4 || m == 6 || m == 9 || m == 11 {
        30
    } else {
        31
    }
}

/// Decode one raw date-literal string into a calendar-date cell: match the
/// literal pattern, adjust the zero-based month and day up by one, and
/// validate the result as a calendar date. A string that does not match,
/// or an adjusted triple that is no valid date, yields no cell.
pub fn parse_date_from_interface(src: &str) -> (r: Option<Cell>)
    ensures
        match spec_decode_date(src@) {
            Some(dv) => r == Some(Cell::Date(dv)),
            None => r is None,
        },
{
    let parts = match capture_date_parts(src) {
        Some(p) => p,
        None => {
            return None;
        },
    };
    let year = match parse_date_field(&parts.0) {
        Some(v) => v,
        None => {
            return None;
        },
    };
    let month0 = match parse_date_field(&parts.1) {
        Some(v) => v,
        None => {
            return None;
        },
    };
    let day0 = match parse_date_field(&parts.2) {
        Some(v) => v,
        None => {
            return None;
        },
    };
    proof {
        lemma_date_field_bound(parts.0@);
        lemma_date_field_bound(parts.1@);
        lemma_date_field_bound(parts.2@);
    }
    let month = month0 + 1;
    let day = day0 + 1;
    if !(month >= 1 && month <= 12) {
        return None;
    }
    if !(day >= 1 && day <= days_in_month(year, month)) {
        return None;
    }
    Some(Cell::Date(DateVal { year, month, day }))
}

} // verus!
