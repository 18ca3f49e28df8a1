//! Decoding calendar dates written as `YYYY-MM-DD` into the library's
//! day-number date model, against an explicit proleptic-Gregorian
//! day-count formula.

use vstd::prelude::*;

use crate::bindings::{SqlDate, SqlDateTime};
use crate::decode::{DecodeCause, DeserializeFromStr};
use crate::numstr::{spec_digit_val, spec_digits_val, spec_is_digit};

verus! {

/// Proleptic-Gregorian leap year.
pub open spec fn spec_is_leap_year(y: int) -> bool {
    y % 4 == 0 && (y % 100 != 0 || y % 400 == 0)
}

pub open spec fn spec_days_in_month(y: int, m: int) -> int {
    if m == 2 {
        if spec_is_leap_year(y) {
            29
        } else {
            28
        }
    } else if m == 4 || m == 6 || m == 9 || m == 11 {
        30
    } else {
        31
    }
}

/// Days in the months before `m` of a non-leap year.
pub open spec fn spec_days_before_month(m: int) -> int {
    if m == 1 {
        0
    } else if m == 2 {
        31
    } else if m == 3 {
        59
    } else if m == 4 {
        90
    } else if m == 5 {
        120
    } else if m == 6 {
        151
    } else if m == 7 {
        181
    } else if m == 8 {
        212
    } else if m == 9 {
        243
    } else if m == 10 {
        273
    } else if m == 11 {
        304
    } else {
        334
    }
}

/// Complete leap years strictly before year `y` (for `y >= 1`).
pub open spec fn spec_leaps_before(y: int) -> int {
    (y - 1) / 4 - (y - 1) / 100 + (y - 1) / 400
}

/// Whole days from 1970-01-01 to the civil date `y-m-d`: day counting
/// from 0001-01-01, shifted by the 719162 days up to the epoch.
pub open spec fn spec_days_since_epoch(y: int, m: int, d: int) -> int {
    365 * (y - 1) + spec_leaps_before(y) + spec_days_before_month(m) + (if m > 2
        && spec_is_leap_year(y) {
        1int
    } else {
        0int
    }) + (d - 1) - 719162
}

/// The years this decoder accepts: the four-digit ones, excluding the
/// year zero.
pub open spec fn spec_valid_ymd(y: int, m: int, d: int) -> bool {
    &&& 1 <= y <= 9999
    &&& 1 <= m <= 12
    &&& 1 <= d <= spec_days_in_month(y, m)
}

/// Exactly ten characters: four year digits, a dash, two month digits, a
/// dash, two day digits.
pub open spec fn spec_date_syntax(t: Seq<char>) -> bool {
    &&& t.len() == 10
    &&& spec_is_digit(t[0])
    &&& spec_is_digit(t[1])
    &&& spec_is_digit(t[2])
    &&& spec_is_digit(t[3])
    &&& t[4] == '-'
    &&& spec_is_digit(t[5])
    &&& spec_is_digit(t[6])
    &&& t[7] == '-'
    &&& spec_is_digit(t[8])
    &&& spec_is_digit(t[9])
}

pub open spec fn spec_date_year(t: Seq<char>) -> int {
    ((spec_digit_val(t[0]) * 10 + spec_digit_val(t[1])) * 10 + spec_digit_val(t[2])) * 10
        + spec_digit_val(t[3])
}

pub open spec fn spec_date_month(t: Seq<char>) -> int {
    spec_digit_val(t[5]) * 10 + spec_digit_val(t[6])
}

pub open spec fn spec_date_day(t: Seq<char>) -> int {
    spec_digit_val(t[8]) * 10 + spec_digit_val(t[9])
}

/// Reads the digit at position `i`.
fn digit_at(s: &str, i: usize) -> (r: Option<u32>)
    requires
        i < s@.len(),
    ensures
        r is Some <==> spec_is_digit(s@[i as int]),
        r matches Some(v) ==> v == spec_digit_val(s@[i as int]),
{
    let cv = s.get_char(i) as u32;
    if 48 <= cv && cv <= 57 {
        Some(cv - 48)
    } else {
        None
    }
}

/// Parses a `YYYY-MM-DD` date into its day number since the epoch.
pub fn parse_date(s: &str) -> (r: Result<SqlDate, DecodeCause>)
    ensures
        r is Ok <==> (spec_date_syntax(s@) && spec_valid_ymd(
            spec_date_year(s@),
            spec_date_month(s@),
            spec_date_day(s@),
        )),
        r matches Ok(v) ==> v.days_since_epoch == spec_days_since_epoch(
            spec_date_year(s@),
            spec_date_month(s@),
            spec_date_day(s@),
        ) && v.well_formed(),
        r matches Err(c) ==> c == DecodeCause::InvalidSyntax,
{
    if s.unicode_len() != 10 {
        return Err(DecodeCause::InvalidSyntax);
    }
    if s.get_char(4) != '-' || s.get_char(7) != '-' {
        return Err(DecodeCause::InvalidSyntax);
    }
    let (y0, y1, y2, y3) = match (digit_at(s, 0), digit_at(s, 1), digit_at(s, 2), digit_at(s, 3)) {
        (Some(a), Some(b), Some(c), Some(d)) => (a, b, c, d),
        _ => {
            return Err(DecodeCause::InvalidSyntax);
        },
    };
    let (m0, m1) = match (digit_at(s, 5), digit_at(s, 6)) {
        (Some(a), Some(b)) => (a, b),
        _ => {
            return Err(DecodeCause::InvalidSyntax);
        },
    };
    let (d0, d1) = match (digit_at(s, 8), digit_at(s, 9)) {
        (Some(a), Some(b)) => (a, b),
        _ => {
            return Err(DecodeCause::InvalidSyntax);
        },
    };
    let y: i64 = (((y0 * 10 + y1) * 10 + y2) * 10 + y3) as i64;
    let m: i64 = (m0 * 10 + m1) as i64;
    let d: i64 = (d0 * 10 + d1) as i64;
    if y < 1 || m < 1 || m > 12 || d < 1 {
        return Err(DecodeCause::InvalidSyntax);
    }
    let leap: bool = y % 4 == 0 && (y % 100 != 0 || y % 400 == 0);
    let month_len: i64 = if m == 2 {
        if leap {
            29
        } else {
            28
        }
    } else if m == 4 || m == 6 || m == 9 || m == 11 {
        30
    } else {
        31
    };
    if d > month_len {
        return Err(DecodeCause::InvalidSyntax);
    }
    let before_month: i64 = if m == 1 {
        0
    } else if m == 2 {
        31
    } else if m == 3 {
        59
    } else if m == 4 {
        90
    } else if m == 5 {
        120
    } else if m == 6 {
        151
    } else if m == 7 {
        181
    } else if m == 8 {
        212
    } else if m == 9 {
        243
    } else if m == 10 {
        273
    } else if m == 11 {
        304
    } else {
        334
    };
    let leap_adj: i64 = if m > 2 && leap {
        1
    } else {
        0
    };
    let yy = y - 1;
    let days: i64 = 365 * yy + yy / 4 - yy / 100 + yy / 400 + before_month + leap_adj + (d - 1)
        - 719162;
    Ok(SqlDate { days_since_epoch: days })
}

pub open spec fn spec_pow10(n: int) -> int {
    if n <= 0 {
        1
    } else if n == 1 {
        10
    } else if n == 2 {
        100
    } else if n == 3 {
        1000
    } else if n == 4 {
        10000
    } else if n == 5 {
        100000
    } else if n == 6 {
        1000000
    } else if n == 7 {
        10000000
    } else if n == 8 {
        100000000
    } else {
        1000000000
    }
}

/// A nonempty digit run of at most nine digits denotes less than a
/// billion.
pub proof fn lemma_digits_val_bound(s: Seq<char>)
    requires
        crate::numstr::spec_all_digits(s),
        s.len() <= 9,
    ensures
        0 <= spec_digits_val(s) < spec_pow10(s.len() as int),
    decreases s.len(),
{
    if s.len() == 0 {
    } else {
        assert(spec_is_digit(s[s.len() - 1]));
        assert forall|i: int| 0 <= i < s.drop_last().len() implies spec_is_digit(
            #[trigger] s.drop_last()[i],
        ) by {
            assert(s.drop_last()[i] == s[i]);
        }
        lemma_digits_val_bound(s.drop_last());
        assert(spec_pow10(s.len() - 1) * 10 <= spec_pow10(s.len() as int));
    }
}

/// A date, a space, `HH:MM:SS`, and an optional dot with one to nine
/// fraction digits.
pub open spec fn spec_datetime_syntax(t: Seq<char>) -> bool {
    &&& t.len() >= 19
    &&& spec_date_syntax(t.subrange(0, 10))
    &&& t[10] == ' '
    &&& spec_is_digit(t[11])
    &&& spec_is_digit(t[12])
    &&& t[13] == ':'
    &&& spec_is_digit(t[14])
    &&& spec_is_digit(t[15])
    &&& t[16] == ':'
    &&& spec_is_digit(t[17])
    &&& spec_is_digit(t[18])
    &&& (t.len() == 19 || (t[19] == '.' && 20 < t.len() <= 29 && (forall|i: int|
        20 <= i < t.len() ==> spec_is_digit(#[trigger] t[i]))))
}

pub open spec fn spec_dt_hour(t: Seq<char>) -> int {
    spec_digit_val(t[11]) * 10 + spec_digit_val(t[12])
}

pub open spec fn spec_dt_min(t: Seq<char>) -> int {
    spec_digit_val(t[14]) * 10 + spec_digit_val(t[15])
}

pub open spec fn spec_dt_sec(t: Seq<char>) -> int {
    spec_digit_val(t[17]) * 10 + spec_digit_val(t[18])
}

/// The fraction digits scaled to nanoseconds: absent means zero.
pub open spec fn spec_dt_frac_nanos(t: Seq<char>) -> int {
    if t.len() == 19 {
        0
    } else {
        spec_digits_val(t.subrange(20, t.len() as int)) * spec_pow10(9 - (t.len() - 20))
    }
}

/// Whether the carried date and clock fields denote a real instant.
pub open spec fn spec_datetime_valid(t: Seq<char>) -> bool {
    &&& spec_valid_ymd(
        spec_date_year(t.subrange(0, 10)),
        spec_date_month(t.subrange(0, 10)),
        spec_date_day(t.subrange(0, 10)),
    )
    &&& spec_dt_hour(t) <= 23
    &&& spec_dt_min(t) <= 59
    &&& spec_dt_sec(t) <= 59
}

/// Nanoseconds from the epoch to the denoted instant.
pub open spec fn spec_datetime_nanos(t: Seq<char>) -> int {
    spec_days_since_epoch(
        spec_date_year(t.subrange(0, 10)),
        spec_date_month(t.subrange(0, 10)),
        spec_date_day(t.subrange(0, 10)),
    ) * 86_400_000_000_000 + (spec_dt_hour(t) * 3600 + spec_dt_min(t) * 60 + spec_dt_sec(t))
        * 1_000_000_000 + spec_dt_frac_nanos(t)
}

fn pow10_u64(n: usize) -> (r: u64)
    requires
        n <= 9,
    ensures
        r == spec_pow10(n as int),
{
    if n == 0 {
        1
    } else if n == 1 {
        10
    } else if n == 2 {
        100
    } else if n == 3 {
        1000
    } else if n == 4 {
        10000
    } else if n == 5 {
        100000
    } else if n == 6 {
        1000000
    } else if n == 7 {
        10000000
    } else if n == 8 {
        100000000
    } else {
        1000000000
    }
}

/// Parses a `YYYY-MM-DD HH:MM:SS` date-time, with an optional fraction,
/// into nanoseconds since the epoch.
#[verifier::rlimit(80)]
pub fn parse_datetime(s: &str) -> (r: Result<SqlDateTime, DecodeCause>)
    ensures
        r is Ok <==> (spec_datetime_syntax(s@) && spec_datetime_valid(s@) && i64::MIN
            <= spec_datetime_nanos(s@) <= i64::MAX),
        r matches Ok(v) ==> v.nanos_since_epoch == spec_datetime_nanos(s@),
        r matches Err(c) ==> ({
            if spec_datetime_syntax(s@) && spec_datetime_valid(s@) {
                c == DecodeCause::OutOfRange
            } else {
                c == DecodeCause::InvalidSyntax
            }
        }),
{
    let n = s.unicode_len();
    if n < 19 {
        return Err(DecodeCause::InvalidSyntax);
    }
    let date = match parse_date(s.substring_char(0, 10)) {
        Ok(d) => d,
        Err(_) => {
            return Err(DecodeCause::InvalidSyntax);
        },
    };
    if s.get_char(10) != ' ' || s.get_char(13) != ':' || s.get_char(16) != ':' {
        return Err(DecodeCause::InvalidSyntax);
    }
    let (h0, h1) = match (digit_at(s, 11), digit_at(s, 12)) {
        (Some(a), Some(b)) => (a, b),
        _ => {
            return Err(DecodeCause::InvalidSyntax);
        },
    };
    let (m0, m1) = match (digit_at(s, 14), digit_at(s, 15)) {
        (Some(a), Some(b)) => (a, b),
        _ => {
            return Err(DecodeCause::InvalidSyntax);
        },
    };
    let (s0, s1) = match (digit_at(s, 17), digit_at(s, 18)) {
        (Some(a), Some(b)) => (a, b),
        _ => {
            return Err(DecodeCause::InvalidSyntax);
        },
    };
    let hour: u64 = (h0 * 10 + h1) as u64;
    let minute: u64 = (m0 * 10 + m1) as u64;
    let second: u64 = (s0 * 10 + s1) as u64;
    if hour > 23 || minute > 59 || second > 59 {
        return Err(DecodeCause::InvalidSyntax);
    }
    let frac: u64 = if n == 19 {
        0
    } else {
        if s.get_char(19) != '.' || n <= 20 || n > 29 {
            return Err(DecodeCause::InvalidSyntax);
        }
        match crate::numstr::parse_u128_digits(s, 20) {
            Ok(v) => {
                let ghost k = (n - 20) as int;
                proof {
                    lemma_digits_val_bound(s@.subrange(20, n as int));
                    assert(spec_pow10(k) * spec_pow10(9 - k) == 1_000_000_000);
                    assert((v as int) * spec_pow10(9 - k) < 1_000_000_000) by (nonlinear_arith)
                        requires
                            0 <= v as int,
                            (v as int) < spec_pow10(k),
                            spec_pow10(k) * spec_pow10(9 - k) == 1_000_000_000,
                            spec_pow10(9 - k) >= 1,
                    ;
                }
                (v as u64) * pow10_u64(9 - (n - 20))
            },
            Err(_) => {
                proof {
                    let t = s@;
                    let digits = t.subrange(20, n as int);
                    if crate::numstr::spec_all_digits(digits) {
                        lemma_digits_val_bound(digits);
                        assert(false);
                    }
                    let j = choose|j: int|
                        0 <= j < digits.len() && !spec_is_digit(#[trigger] digits[j]);
                    assert(digits[j] == t[j + 20]);
                    assert(!spec_is_digit(t[j + 20]));
                }
                return Err(DecodeCause::InvalidSyntax);
            },
        }
    };
    let day_nanos: i128 = (date.days_since_epoch as i128) * 86_400_000_000_000;
    let clock_nanos: i128 = ((hour * 3600 + minute * 60 + second) * 1_000_000_000 + frac) as i128;
    let total: i128 = day_nanos + clock_nanos;
    proof {
        let t = s@;
        if n > 19 {
            assert forall|i: int| 20 <= i < t.len() implies spec_is_digit(#[trigger] t[i]) by {
                assert(t.subrange(20, n as int)[i - 20] == t[i]);
            }
        }
        assert(spec_datetime_syntax(t));
        assert(spec_datetime_valid(t));
        assert(total == spec_datetime_nanos(t));
    }
    if total < i64::MIN as i128 || total > i64::MAX as i128 {
        return Err(DecodeCause::OutOfRange);
    }
    Ok(SqlDateTime { nanos_since_epoch: total as i64 })
}

impl DeserializeFromStr for SqlDateTime {
    open spec fn decode_ok(s: Option<Seq<char>>) -> bool {
        s matches Some(t) && spec_datetime_syntax(t) && spec_datetime_valid(t) && i64::MIN
            <= spec_datetime_nanos(t) <= i64::MAX
    }

    open spec fn decode_rel(s: Option<Seq<char>>, v: SqlDateTime) -> bool {
        s matches Some(t) && v.nanos_since_epoch == spec_datetime_nanos(t)
    }

    open spec fn fail_cause(s: Option<Seq<char>>) -> DecodeCause {
        match s {
            None => DecodeCause::UnexpectedNull,
            Some(t) => if spec_datetime_syntax(t) && spec_datetime_valid(t) {
                DecodeCause::OutOfRange
            } else {
                DecodeCause::InvalidSyntax
            },
        }
    }

    fn deserialize_from_str(s: Option<&str>) -> (r: Result<Self, DecodeCause>) {
        match s {
            None => Err(DecodeCause::UnexpectedNull),
            Some(t) => parse_datetime(t),
        }
    }
}

impl DeserializeFromStr for SqlDate {
    open spec fn decode_ok(s: Option<Seq<char>>) -> bool {
        s matches Some(t) && spec_date_syntax(t) && spec_valid_ymd(
            spec_date_year(t),
            spec_date_month(t),
            spec_date_day(t),
        )
    }

    open spec fn decode_rel(s: Option<Seq<char>>, v: SqlDate) -> bool {
        s matches Some(t) && v.days_since_epoch == spec_days_since_epoch(
            spec_date_year(t),
            spec_date_month(t),
            spec_date_day(t),
        )
    }

    open spec fn fail_cause(s: Option<Seq<char>>) -> DecodeCause {
        if s is None {
            DecodeCause::UnexpectedNull
        } else {
            DecodeCause::InvalidSyntax
        }
    }

    fn deserialize_from_str(s: Option<&str>) -> (r: Result<Self, DecodeCause>) {
        match s {
            None => Err(DecodeCause::UnexpectedNull),
            Some(t) => parse_date(t),
        }
    }
}

} // verus!
