//! Instants in time, held as a civil date and clock time in UTC.
//!
//! The service's wire format carries timestamps as RFC 3339 text with a
//! trailing `Z`; when the nanosecond part is zero the fractional suffix is
//! omitted, otherwise it is printed with full nine-digit precision. A
//! [`Timestamp`] stores the broken-down fields directly, so both the
//! conversion from Unix time and the rendering are ordinary verified
//! arithmetic. The supported range is what the text format can carry:
//! year zero through year 9999.

use vstd::prelude::*;

use crate::json::digit_char;
use crate::json::push_char;

verus! {

/// Whether a year is a leap year in the proleptic Gregorian calendar.
pub open spec fn is_leap_year(y: int) -> bool {
    (y % 4 == 0 && y % 100 != 0) || y % 400 == 0
}

/// The number of days in a year.
pub open spec fn days_in_year(y: int) -> int {
    if is_leap_year(y) {
        366
    } else {
        365
    }
}

/// The number of days in a month (months count from one).
pub open spec fn days_in_month(y: int, m: int) -> int {
    if m == 2 {
        if is_leap_year(y) {
            29
        } else {
            28
        }
    } else if m == 4 || m == 6 || m == 9 || m == 11 {
        30
    } else {
        31
    }
}

/// Days from the first of January of year `y` to the first of month `m`
/// of the same year, for `m` between 1 and 13.
pub open spec fn days_before_month(y: int, m: int) -> int {
    let plain: int = if m <= 1 {
        0
    } else if m == 2 {
        31
    } else if m == 3 {
        59
    } else if m == 4 {
        90
    } else if m == 5 {
        120
    } else if m == 6 {
        151
    } else if m == 7 {
        181
    } else if m == 8 {
        212
    } else if m == 9 {
        243
    } else if m == 10 {
        273
    } else if m == 11 {
        304
    } else if m == 12 {
        334
    } else {
        365
    };
    if m >= 3 && is_leap_year(y) {
        plain + 1
    } else {
        plain
    }
}

/// Days from the first of January of year zero to the first of January of
/// year `y`, counted year by year.
pub open spec fn days_before_year(y: int) -> int
    decreases y,
{
    if y <= 0 {
        0
    } else {
        days_before_year(y - 1) + days_in_year(y - 1)
    }
}

/// When a positive number steps down by one, its quotient by `k` steps down
/// exactly at the multiples of `k`.
proof fn lemma_div_step(n: int, k: int)
    requires
        n >= 1,
        k >= 1,
    ensures
        n / k - (n - 1) / k == if n % k == 0 {
            1int
        } else {
            0int
        },
{
    vstd::arithmetic::div_mod::lemma_fundamental_div_mod(n, k);
    let q = n / k;
    vstd::arithmetic::mul::lemma_mul_is_commutative(k, q);
    if n % k == 0 {
        vstd::arithmetic::mul::lemma_mul_is_distributive_sub_other_way(k, q, 1);
        assert(n - 1 == (q - 1) * k + (k - 1));
        vstd::arithmetic::div_mod::lemma_fundamental_div_mod_converse(n - 1, k, q - 1, k - 1);
    } else {
        assert(n - 1 == q * k + (n % k - 1));
        vstd::arithmetic::div_mod::lemma_fundamental_div_mod_converse(n - 1, k, q, n % k - 1);
    }
}

/// A multiple of one hundred is a multiple of four, and a multiple of four
/// hundred is a multiple of one hundred.
proof fn lemma_divisibility_chain(n: int)
    requires
        n >= 0,
    ensures
        n % 400 == 0 ==> n % 100 == 0,
        n % 100 == 0 ==> n % 4 == 0,
{
    if n % 400 == 0 {
        vstd::arithmetic::div_mod::lemma_fundamental_div_mod(n, 400);
        vstd::arithmetic::div_mod::lemma_mod_multiples_basic(4 * (n / 400), 100);
    }
    if n % 100 == 0 {
        vstd::arithmetic::div_mod::lemma_fundamental_div_mod(n, 100);
        vstd::arithmetic::div_mod::lemma_mod_multiples_basic(25 * (n / 100), 4);
    }
}

/// The year-by-year day count agrees with the closed-form Gregorian formula.
pub proof fn lemma_days_before_year_closed(y: int)
    requires
        1 <= y,
    ensures
        days_before_year(y) == 365 * y + (y - 1) / 4 - (y - 1) / 100 + (y - 1) / 400 + 1,
    decreases y,
{
    if y == 1 {
        assert(is_leap_year(0));
    } else {
        lemma_days_before_year_closed(y - 1);
        lemma_div_step(y - 1, 4);
        lemma_div_step(y - 1, 100);
        lemma_div_step(y - 1, 400);
        lemma_divisibility_chain(y - 1);
        assert(days_before_year(y) == days_before_year(y - 1) + days_in_year(y - 1));
        if (y - 1) % 400 == 0 {
            assert(is_leap_year(y - 1));
        } else if (y - 1) % 100 == 0 {
            assert(!is_leap_year(y - 1));
        } else if (y - 1) % 4 == 0 {
            assert(is_leap_year(y - 1));
        } else {
            assert(!is_leap_year(y - 1));
        }
    }
}

/// Later years have at least as many days before them.
pub proof fn lemma_days_before_year_mono(a: int, b: int)
    requires
        a <= b,
    ensures
        days_before_year(a) <= days_before_year(b),
    decreases b - a,
{
    if a < b {
        lemma_days_before_year_mono(a, b - 1);
    }
}

/// An instant in UTC, broken down into civil fields.
///
/// `well_formed` is the validity condition every constructor establishes;
/// the rendering and conversion contracts assume it.
#[derive(Clone, Copy, PartialEq, Eq, Structural, Debug)]
pub struct Timestamp {
    pub year: u16,
    pub month: u8,
    pub day: u8,
    pub hour: u8,
    pub minute: u8,
    pub second: u8,
    pub nanosecond: u32,
}

impl Timestamp {
    /// The fields name an actual instant the text format can carry.
    pub open spec fn well_formed(&self) -> bool {
        &&& self.year <= 9999
        &&& 1 <= self.month <= 12
        &&& 1 <= self.day <= days_in_month(self.year as int, self.month as int)
        &&& self.hour < 24
        &&& self.minute < 60
        &&& self.second < 60
        &&& self.nanosecond < 1000000000
    }

    /// Seconds from the first instant of year zero to this instant.
    pub open spec fn civil_seconds(&self) -> int {
        (days_before_year(self.year as int) + days_before_month(
            self.year as int,
            self.month as int,
        ) + self.day - 1) * 86400 + self.hour * 3600 + self.minute * 60 + self.second
    }

    /// Nanoseconds from the Unix epoch to this instant. The constant is the
    /// number of seconds from the first instant of year zero to the epoch.
    pub open spec fn unix_nanos(&self) -> int {
        (self.civil_seconds() - 62167219200) * 1000000000 + self.nanosecond
    }
}

/// Whether a year is a leap year.
fn leap_year(y: u16) -> (r: bool)
    ensures
        r == is_leap_year(y as int),
{
    (y % 4 == 0 && y % 100 != 0) || y % 400 == 0
}

/// The number of days in a year.
fn year_days(y: u16) -> (r: u64)
    ensures
        r == days_in_year(y as int),
{
    if leap_year(y) {
        366
    } else {
        365
    }
}

/// The number of days in a month.
fn month_days(y: u16, m: u8) -> (r: u8)
    requires
        1 <= m <= 12,
    ensures
        r == days_in_month(y as int, m as int),
{
    if m == 2 {
        if leap_year(y) {
            29
        } else {
            28
        }
    } else if m == 4 || m == 6 || m == 9 || m == 11 {
        30
    } else {
        31
    }
}

impl Timestamp {
    /// The instant a count of nanoseconds from the Unix epoch names.
    /// The bounds are the first and last instant of the years zero
    /// through 9999, which is what the text format can carry.
    pub fn from_unix_timestamp_nanos(nanos: i128) -> (r: Timestamp)
        requires
            -62167219200000000000 <= nanos < 253402300800000000000,
        ensures
            r.well_formed(),
            r.unix_nanos() == nanos,
    {
        proof {
            lemma_days_before_year_closed(10000);
        }
        let total: u128 = (nanos + 62167219200000000000) as u128;
        let nanosecond: u32 = (total % 1000000000) as u32;
        let secs: u64 = (total / 1000000000) as u64;
        let days_total: u64 = secs / 86400;
        let sod: u64 = secs % 86400;
        let hour: u8 = (sod / 3600) as u8;
        let minute: u8 = ((sod % 3600) / 60) as u8;
        let second: u8 = ((sod % 3600) % 60) as u8;
        assert(sod == hour * 3600 + minute * 60 + second && hour < 24 && minute < 60 && second
            < 60);

        let mut year: u16 = 0;
        let mut rem: u64 = days_total;
        let mut dy: u64 = year_days(year);
        while rem >= dy
            invariant
                year <= 9999,
                dy == days_in_year(year as int),
                days_before_year(year as int) + rem == days_total,
                days_total < days_before_year(10000),
            decreases rem,
        {
            rem = rem - dy;
            year = year + 1;
            proof {
                if year as int > 9999 {
                    lemma_days_before_year_mono(10000, year as int);
                    assert(false);
                }
            }
            dy = year_days(year);
        }

        let mut month: u8 = 1;
        let mut dm: u8 = month_days(year, 1);
        while rem >= dm as u64
            invariant
                1 <= month <= 12,
                year <= 9999,
                dm == days_in_month(year as int, month as int),
                days_before_month(year as int, month as int) + rem == days_total
                    - days_before_year(year as int),
                days_total - days_before_year(year as int) < days_in_year(year as int),
            decreases 12 - month,
        {
            rem = rem - dm as u64;
            proof {
                assert(days_before_month(year as int, month as int + 1) == days_before_month(
                    year as int,
                    month as int,
                ) + days_in_month(year as int, month as int));
                assert(days_before_month(year as int, 13) == days_in_year(year as int));
            }
            month = month + 1;
            dm = month_days(year, month);
        }
        let day: u8 = (rem + 1) as u8;

        Timestamp { year, month, day, hour, minute, second, nanosecond }
    }

    /// Whether the fields name an actual instant the text format can
    /// carry.
    pub fn is_well_formed(&self) -> (r: bool)
        ensures
            r == self.well_formed(),
    {
        if !(self.year <= 9999 && 1 <= self.month && self.month <= 12) {
            false
        } else {
            1 <= self.day && self.day <= month_days(self.year, self.month) && self.hour < 24
                && self.minute < 60 && self.second < 60 && self.nanosecond < 1000000000
        }
    }

    /// The instant named by civil fields, or nothing when the fields do not
    /// name one (a month of zero, the thirtieth of February, and the like).
    pub fn from_civil(
        year: u16,
        month: u8,
        day: u8,
        hour: u8,
        minute: u8,
        second: u8,
        nanosecond: u32,
    ) -> (r: Option<Timestamp>)
        ensures
            r matches Some(t) ==> t == (Timestamp { year, month, day, hour, minute, second, nanosecond }),
            r is Some <==> (Timestamp { year, month, day, hour, minute, second, nanosecond }).well_formed(),
    {
        if year <= 9999 && 1 <= month && month <= 12 && 1 <= day && day <= month_days(year, month)
            && hour < 24 && minute < 60 && second < 60 && nanosecond < 1000000000 {
            Some(Timestamp { year, month, day, hour, minute, second, nanosecond })
        } else {
            None
        }
    }
}

/// Two decimal digits, zero padded.
pub open spec fn pad2(n: int) -> Seq<char> {
    seq![digit_char(n / 10 % 10), digit_char(n % 10)]
}

/// Four decimal digits, zero padded.
pub open spec fn pad4(n: int) -> Seq<char> {
    seq![
        digit_char(n / 1000 % 10),
        digit_char(n / 100 % 10),
        digit_char(n / 10 % 10),
        digit_char(n % 10),
    ]
}

/// Nine decimal digits, zero padded.
pub open spec fn pad9(n: int) -> Seq<char> {
    seq![
        digit_char(n / 100000000 % 10),
        digit_char(n / 10000000 % 10),
        digit_char(n / 1000000 % 10),
        digit_char(n / 100000 % 10),
        digit_char(n / 10000 % 10),
        digit_char(n / 1000 % 10),
        digit_char(n / 100 % 10),
        digit_char(n / 10 % 10),
        digit_char(n % 10),
    ]
}

/// The RFC 3339 rendering of an instant: date, `T`, clock time, a
/// nine-digit fractional second exactly when the nanosecond part is not
/// zero, and a trailing `Z`.
pub open spec fn rfc3339_of(t: Timestamp) -> Seq<char> {
    pad4(t.year as int) + seq!['-'] + pad2(t.month as int) + seq!['-'] + pad2(t.day as int)
        + seq!['T'] + pad2(t.hour as int) + seq![':'] + pad2(t.minute as int) + seq![':'] + pad2(
        t.second as int,
    ) + (if t.nanosecond == 0 {
        Seq::<char>::empty()
    } else {
        seq!['.'] + pad9(t.nanosecond as int)
    }) + seq!['Z']
}

/// Appends two zero-padded decimal digits.
fn push_pad2(out: &mut String, n: u32)
    requires
        n < 100,
    ensures
        final(out)@ == old(out)@ + pad2(n as int),
{
    push_char(out, crate::json::digit_ascii(n / 10 % 10));
    push_char(out, crate::json::digit_ascii(n % 10));
}

/// Appends four zero-padded decimal digits.
fn push_pad4(out: &mut String, n: u32)
    requires
        n < 10000,
    ensures
        final(out)@ == old(out)@ + pad4(n as int),
{
    push_char(out, crate::json::digit_ascii(n / 1000 % 10));
    push_char(out, crate::json::digit_ascii(n / 100 % 10));
    push_char(out, crate::json::digit_ascii(n / 10 % 10));
    push_char(out, crate::json::digit_ascii(n % 10));
}

/// Appends nine zero-padded decimal digits.
fn push_pad9(out: &mut String, n: u32)
    requires
        n < 1000000000,
    ensures
        final(out)@ == old(out)@ + pad9(n as int),
{
    push_char(out, crate::json::digit_ascii(n / 100000000 % 10));
    push_char(out, crate::json::digit_ascii(n / 10000000 % 10));
    push_char(out, crate::json::digit_ascii(n / 1000000 % 10));
    push_char(out, crate::json::digit_ascii(n / 100000 % 10));
    push_char(out, crate::json::digit_ascii(n / 10000 % 10));
    push_char(out, crate::json::digit_ascii(n / 1000 % 10));
    push_char(out, crate::json::digit_ascii(n / 100 % 10));
    push_char(out, crate::json::digit_ascii(n / 10 % 10));
    push_char(out, crate::json::digit_ascii(n % 10));
}

impl Timestamp {
    /// Appends the RFC 3339 rendering of this instant.
    pub fn push_rfc3339(&self, out: &mut String)
        requires
            self.well_formed(),
        ensures
            final(out)@ == old(out)@ + rfc3339_of(*self),
    {
        push_pad4(out, self.year as u32);
        push_char(out, '-');
        push_pad2(out, self.month as u32);
        push_char(out, '-');
        push_pad2(out, self.day as u32);
        push_char(out, 'T');
        push_pad2(out, self.hour as u32);
        push_char(out, ':');
        push_pad2(out, self.minute as u32);
        push_char(out, ':');
        push_pad2(out, self.second as u32);
        if self.nanosecond != 0 {
            push_char(out, '.');
            push_pad9(out, self.nanosecond);
        }
        push_char(out, 'Z');
    }

    /// The RFC 3339 rendering of this instant.
    pub fn to_rfc3339(&self) -> (r: String)
        requires
            self.well_formed(),
        ensures
            r@ == rfc3339_of(*self),
    {
        let mut out = String::new();
        self.push_rfc3339(&mut out);
        out
    }
}

} // verus!
