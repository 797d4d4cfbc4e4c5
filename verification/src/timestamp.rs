//! Instants on the wire: UTC timestamps of the form
//! `YYYY-MM-DDTHH:MM:SS[.fffffffff]Z` for the years 0000 to 9999 of the
//! proleptic Gregorian calendar.
use vstd::prelude::*;

use crate::text::{chars_of, digit, digit_char, push_char};

verus! {

/// Whether `y` is a leap year.
pub open spec fn is_leap_year(y: int) -> bool {
    (y % 4 == 0 && y % 100 != 0) || y % 400 == 0
}

/// Days in year `y`.
pub open spec fn year_days(y: int) -> int {
    if is_leap_year(y) {
        366
    } else {
        365
    }
}

/// Days from 0000-01-01 to the first day of year `y`.
pub open spec fn days_before_year(y: nat) -> int
    decreases y,
{
    if y == 0 {
        0
    } else {
        days_before_year((y - 1) as nat) + year_days(y - 1)
    }
}

/// Days in month `m` (1 to 12) of year `y`.
pub open spec fn month_days(y: int, m: int) -> int {
    if m == 2 {
        if is_leap_year(y) {
            29
        } else {
            28
        }
    } else if m == 4 || m == 6 || m == 9 || m == 11 {
        30
    } else {
        31
    }
}

/// Days from the first of the year to the first of month `m`.
pub open spec fn days_before_month(y: int, m: nat) -> int
    decreases m,
{
    if m <= 1 {
        0
    } else {
        days_before_month(y, (m - 1) as nat) + month_days(y, m - 1)
    }
}

/// Days from 0000-01-01 to 1970-01-01.
pub open spec fn epoch_day() -> int {
    719_528
}

/// A calendar date and time of day in UTC with nanoseconds.
#[derive(Debug, Clone, Copy, PartialEq, Eq, Structural)]
pub struct CivilTime {
    pub year: u32,
    pub month: u32,
    pub day: u32,
    pub hour: u32,
    pub minute: u32,
    pub second: u32,
    pub nanosecond: u32,
}

/// Whether the fields name a real date and time of day in the years 0000
/// to 9999.
pub open spec fn civil_valid(c: CivilTime) -> bool {
    &&& c.year <= 9999
    &&& 1 <= c.month <= 12
    &&& 1 <= c.day <= month_days(c.year as int, c.month as int)
    &&& c.hour < 24
    &&& c.minute < 60
    &&& c.second < 60
    &&& c.nanosecond < 1_000_000_000
}

/// The day since 0000-01-01 of a date.
pub open spec fn civil_day(c: CivilTime) -> int {
    days_before_year(c.year as nat) + days_before_month(c.year as int, c.month as nat) + c.day - 1
}

/// The instant (nanoseconds since the Unix epoch) the fields name.
pub open spec fn civil_instant(c: CivilTime) -> int {
    ((civil_day(c) - epoch_day()) * 86_400 + c.hour * 3_600 + c.minute * 60 + c.second)
        * 1_000_000_000 + c.nanosecond
}

/// The first instant of 0000-01-01.
pub open spec fn first_instant() -> int {
    -epoch_day() * 86_400_000_000_000
}

/// The first instant of 10000-01-01.
pub open spec fn end_instant() -> int {
    (days_before_year(10_000) - epoch_day()) * 86_400_000_000_000
}

proof fn lemma_multiple_step(y: int, k: int)
    requires
        y >= 0,
        k > 0,
    ensures
        (y + k) / k - (y + k - 1) / k == (if y % k == 0 {
            1int
        } else {
            0int
        }),
{
    vstd::arithmetic::div_mod::lemma_fundamental_div_mod(y, k);
    vstd::arithmetic::div_mod::lemma_fundamental_div_mod(y + k, k);
    vstd::arithmetic::div_mod::lemma_fundamental_div_mod(y + k - 1, k);
    vstd::arithmetic::div_mod::lemma_mod_pos_bound(y, k);
    let q = y / k;
    let r = y % k;
    assert(y == q * k + r) by (nonlinear_arith)
        requires
            y == k * (y / k) + (y % k),
            q == y / k,
            r == y % k,
    ;
    assert((q + 1) * k == q * k + k) by (nonlinear_arith);
    vstd::arithmetic::div_mod::lemma_fundamental_div_mod_converse(y + k, k, q + 1, r);
    if r == 0 {
        vstd::arithmetic::div_mod::lemma_fundamental_div_mod_converse(y + k - 1, k, q, k - 1);
    } else {
        vstd::arithmetic::div_mod::lemma_fundamental_div_mod_converse(y + k - 1, k, q + 1, r - 1);
    }
}

proof fn lemma_days_before_year_closed(y: nat)
    ensures
        days_before_year(y) == 365 * y + (y + 3) / 4 - (y + 99) / 100 + (y + 399) / 400,
    decreases y,
{
    if y > 0 {
        let p = (y - 1) as nat;
        lemma_days_before_year_closed(p);
        lemma_multiple_step(p as int, 4);
        lemma_multiple_step(p as int, 100);
        lemma_multiple_step(p as int, 400);
    }
}

proof fn lemma_epoch_day()
    ensures
        days_before_year(1970) == epoch_day(),
        days_before_year(10_000) == 3_652_425,
{
    lemma_days_before_year_closed(1970);
    lemma_days_before_year_closed(10_000);
}

proof fn lemma_days_before_year_monotone(a: nat, b: nat)
    requires
        a <= b,
    ensures
        days_before_year(a) <= days_before_year(b),
    decreases b,
{
    if a < b {
        lemma_days_before_year_monotone(a, (b - 1) as nat);
    }
}

proof fn lemma_days_before_month_bound(y: int, m: nat)
    requires
        1 <= m <= 13,
    ensures
        days_before_month(y, m) + 0 <= days_before_month(y, 13),
        days_before_month(y, 13) == year_days(y),
    decreases 13 - m,
{
    reveal_with_fuel(days_before_month, 13);
    if m < 13 {
        lemma_days_before_month_bound(y, m + 1);
    }
}

fn leap_year(y: u32) -> (r: bool)
    ensures
        r == is_leap_year(y as int),
{
    (y % 4 == 0 && y % 100 != 0) || y % 400 == 0
}

fn days_in_year(y: u32) -> (r: u32)
    ensures
        r == year_days(y as int),
{
    if leap_year(y) {
        366
    } else {
        365
    }
}

fn days_in_month(y: u32, m: u32) -> (r: u32)
    ensures
        r == month_days(y as int, m as int),
{
    if m == 2 {
        if leap_year(y) {
            29
        } else {
            28
        }
    } else if m == 4 || m == 6 || m == 9 || m == 11 {
        30
    } else {
        31
    }
}

/// The calendar fields of an instant in the years 0000 to 9999.
pub fn civil_from_instant(t: i128) -> (c: CivilTime)
    requires
        first_instant() <= t < end_instant(),
    ensures
        civil_valid(c),
        civil_instant(c) == t,
{
    proof {
        lemma_epoch_day();
    }
    let shifted: u128 = (t + 62_167_219_200_000_000_000i128) as u128;
    let day_count: u128 = shifted / 86_400_000_000_000u128;
    let within_day: u128 = shifted % 86_400_000_000_000u128;
    let seconds_of_day: u128 = within_day / 1_000_000_000u128;
    let nanosecond: u128 = within_day % 1_000_000_000u128;
    assert(day_count < 3_652_425) by {
        assert(shifted < 3_652_425 * 86_400_000_000_000);
    }
    let mut year: u32 = 0;
    let mut remaining: u32 = day_count as u32;
    while remaining >= days_in_year(year)
        invariant
            year <= 10_000,
            days_before_year(year as nat) + remaining == day_count,
            day_count < 3_652_425,
            days_before_year(10_000) == 3_652_425,
        decreases 10_000 - year,
    {
        let length = days_in_year(year);
        if year == 10_000 {
            assert(false);
        }
        proof {
            lemma_days_before_year_monotone((year + 1) as nat, 10_000);
        }
        remaining = remaining - length;
        year = year + 1;
    }
    proof {
        lemma_days_before_year_monotone((year + 1) as nat, 10_000);
        if year == 10_000 {
            assert(days_before_year(10_000) + remaining >= 3_652_425);
        }
    }
    let mut month: u32 = 1;
    let mut day_of_year: u32 = remaining;
    proof {
        lemma_days_before_month_bound(year as int, 1);
    }
    while day_of_year >= days_in_month(year, month)
        invariant
            1 <= month <= 12,
            days_before_month(year as int, month as nat) + day_of_year == remaining,
            remaining < year_days(year as int),
        decreases 12 - month,
    {
        proof {
            lemma_days_before_month_bound(year as int, (month + 1) as nat);
        }
        if month == 12 {
            assert(days_before_month(year as int, 13) == year_days(year as int));
            assert(false);
        }
        day_of_year = day_of_year - days_in_month(year, month);
        month = month + 1;
    }
    let hour = (seconds_of_day / 3_600) as u32;
    let minute = ((seconds_of_day % 3_600) / 60) as u32;
    let second = (seconds_of_day % 60) as u32;
    let c = CivilTime {
        year,
        month,
        day: day_of_year + 1,
        hour,
        minute,
        second,
        nanosecond: nanosecond as u32,
    };
    assert(seconds_of_day == hour * 3_600 + minute * 60 + second);
    assert(civil_day(c) == day_count);
    assert(civil_instant(c) == t);
    c
}

/// `n` in exactly `width` decimal digits (the lowest `width` digits).
pub open spec fn fixed_digits(n: nat, width: nat) -> Seq<char>
    decreases width,
{
    if width == 0 {
        Seq::empty()
    } else {
        fixed_digits(n / 10, (width - 1) as nat).push(digit_char((n % 10) as int))
    }
}

/// The wire text of calendar fields: seconds precision, with nine
/// fraction digits where the nanoseconds are not zero.
pub open spec fn civil_text(c: CivilTime) -> Seq<char> {
    fixed_digits(c.year as nat, 4) + seq!['-'] + fixed_digits(c.month as nat, 2) + seq!['-']
        + fixed_digits(c.day as nat, 2) + seq!['T'] + fixed_digits(c.hour as nat, 2) + seq![':']
        + fixed_digits(c.minute as nat, 2) + seq![':'] + fixed_digits(c.second as nat, 2) + (if c.nanosecond
        == 0 {
        Seq::<char>::empty()
    } else {
        seq!['.'] + fixed_digits(c.nanosecond as nat, 9)
    }) + seq!['Z']
}

/// The calendar fields of an instant in the years 0000 to 9999.
pub open spec fn civil_of(t: int) -> CivilTime {
    choose|c: CivilTime| civil_valid(c) && civil_instant(c) == t
}

/// The wire text of an instant in the years 0000 to 9999.
pub open spec fn timestamp_text(t: int) -> Seq<char> {
    civil_text(civil_of(t))
}

fn push_fixed_digits(out: &mut String, n: u32, width: u32)
    ensures
        final(out)@ == old(out)@ + fixed_digits(n as nat, width as nat),
    decreases width,
{
    if width > 0 {
        push_fixed_digits(out, n / 10, width - 1);
        push_char(out, digit((n % 10) as u128));
    }
}

proof fn lemma_year_of_day(day: int, y1: nat, y2: nat)
    requires
        days_before_year(y1) <= day < days_before_year(y1) + year_days(y1 as int),
        days_before_year(y2) <= day < days_before_year(y2) + year_days(y2 as int),
    ensures
        y1 == y2,
{
    if y1 < y2 {
        lemma_days_before_year_monotone(y1 + 1, y2);
    } else if y2 < y1 {
        lemma_days_before_year_monotone(y2 + 1, y1);
    }
}

proof fn lemma_days_before_month_monotone(y: int, a: nat, b: nat)
    requires
        a <= b,
    ensures
        days_before_month(y, a) <= days_before_month(y, b),
    decreases b,
{
    if a < b {
        lemma_days_before_month_monotone(y, a, (b - 1) as nat);
    }
}

proof fn lemma_month_of_day(y: int, day: int, m1: nat, m2: nat)
    requires
        1 <= m1 <= 12,
        1 <= m2 <= 12,
        days_before_month(y, m1) <= day < days_before_month(y, m1) + month_days(y, m1 as int),
        days_before_month(y, m2) <= day < days_before_month(y, m2) + month_days(y, m2 as int),
    ensures
        m1 == m2,
{
    if m1 < m2 {
        lemma_days_before_month_monotone(y, m1 + 1, m2);
    } else if m2 < m1 {
        lemma_days_before_month_monotone(y, m2 + 1, m1);
    }
}

/// Valid calendar fields name distinct instants.
pub proof fn lemma_civil_instant_injective(a: CivilTime, b: CivilTime)
    requires
        civil_valid(a),
        civil_valid(b),
        civil_instant(a) == civil_instant(b),
    ensures
        a == b,
{
    let sa = (civil_day(a) - epoch_day()) * 86_400 + a.hour * 3_600 + a.minute * 60 + a.second;
    let sb = (civil_day(b) - epoch_day()) * 86_400 + b.hour * 3_600 + b.minute * 60 + b.second;
    vstd::arithmetic::div_mod::lemma_fundamental_div_mod_converse(civil_instant(a), 1_000_000_000, sa, a.nanosecond as int);
    vstd::arithmetic::div_mod::lemma_fundamental_div_mod_converse(civil_instant(b), 1_000_000_000, sb, b.nanosecond as int);
    let da = civil_day(a) - epoch_day();
    let db = civil_day(b) - epoch_day();
    let ra = a.hour * 3_600 + a.minute * 60 + a.second;
    let rb = b.hour * 3_600 + b.minute * 60 + b.second;
    vstd::arithmetic::div_mod::lemma_fundamental_div_mod_converse(sa, 86_400, da, ra);
    vstd::arithmetic::div_mod::lemma_fundamental_div_mod_converse(sb, 86_400, db, rb);
    assert(a.hour == b.hour && a.minute == b.minute && a.second == b.second) by {
        vstd::arithmetic::div_mod::lemma_fundamental_div_mod_converse(ra, 3_600, a.hour as int, a.minute * 60 + a.second);
        vstd::arithmetic::div_mod::lemma_fundamental_div_mod_converse(rb, 3_600, b.hour as int, b.minute * 60 + b.second);
        vstd::arithmetic::div_mod::lemma_fundamental_div_mod_converse(a.minute * 60 + a.second, 60, a.minute as int, a.second as int);
        vstd::arithmetic::div_mod::lemma_fundamental_div_mod_converse(b.minute * 60 + b.second, 60, b.minute as int, b.second as int);
    }
    assert(sa == sb);
    assert(da == db);
    assert(civil_day(a) == civil_day(b));
    assert(days_before_month(a.year as int, (a.month + 1) as nat) == days_before_month(
        a.year as int,
        a.month as nat,
    ) + month_days(a.year as int, a.month as int));
    assert(days_before_month(b.year as int, (b.month + 1) as nat) == days_before_month(
        b.year as int,
        b.month as nat,
    ) + month_days(b.year as int, b.month as int));
    lemma_days_before_month_bound(a.year as int, a.month as nat);
    lemma_days_before_month_bound(b.year as int, b.month as nat);
    lemma_days_before_month_monotone(a.year as int, (a.month + 1) as nat, 13);
    lemma_days_before_month_monotone(b.year as int, (b.month + 1) as nat, 13);
    lemma_days_before_month_monotone(a.year as int, 1, a.month as nat);
    lemma_days_before_month_monotone(b.year as int, 1, b.month as nat);
    lemma_year_of_day(civil_day(a), a.year as nat, b.year as nat);
    lemma_month_of_day(
        a.year as int,
        civil_day(a) - days_before_year(a.year as nat),
        a.month as nat,
        b.month as nat,
    );
}

/// The wire text of an instant, or `None` outside the years 0000 to 9999.
pub fn format_timestamp(t: i128) -> (r: Option<String>)
    ensures
        match r {
            Some(s) => first_instant() <= t < end_instant() && s@ == timestamp_text(t as int),
            None => !(first_instant() <= t < end_instant()),
        },
{
    proof {
        lemma_epoch_day();
    }
    if t < -62_167_219_200_000_000_000i128 || t >= 253_402_300_800_000_000_000i128 {
        return None;
    }
    let c = civil_from_instant(t);
    proof {
        let chosen = civil_of(t as int);
        assert(civil_valid(chosen) && civil_instant(chosen) == t);
        lemma_civil_instant_injective(c, chosen);
    }
    let mut out = String::new();
    push_fixed_digits(&mut out, c.year, 4);
    push_char(&mut out, '-');
    push_fixed_digits(&mut out, c.month, 2);
    push_char(&mut out, '-');
    push_fixed_digits(&mut out, c.day, 2);
    push_char(&mut out, 'T');
    push_fixed_digits(&mut out, c.hour, 2);
    push_char(&mut out, ':');
    push_fixed_digits(&mut out, c.minute, 2);
    push_char(&mut out, ':');
    push_fixed_digits(&mut out, c.second, 2);
    if c.nanosecond != 0 {
        push_char(&mut out, '.');
        push_fixed_digits(&mut out, c.nanosecond, 9);
    }
    push_char(&mut out, 'Z');
    assert(out@ =~= civil_text(c));
    Some(out)
}

/// Whether `c` is an ASCII digit.
pub open spec fn is_digit_char(c: char) -> bool {
    48 <= (c as int) <= 57
}

/// Whether every character of `s` is an ASCII digit.
pub open spec fn all_digits(s: Seq<char>) -> bool {
    forall|i: int| 0 <= i < s.len() ==> is_digit_char(#[trigger] s[i])
}

/// The value of a string of decimal digits.
pub open spec fn digits_value(s: Seq<char>) -> nat
    decreases s.len(),
{
    if s.len() == 0 {
        0
    } else {
        digits_value(s.drop_last()) * 10 + ((s.last() as int) - 48) as nat
    }
}

/// `10` to the power `k`.
pub open spec fn pow10(k: nat) -> nat
    decreases k,
{
    if k == 0 {
        1
    } else {
        10 * pow10((k - 1) as nat)
    }
}

/// The nanoseconds a fraction part stands for: none, or a point and one to
/// nine digits.
pub open spec fn fraction_nanos(f: Seq<char>) -> Option<nat> {
    if f.len() == 0 {
        Some(0)
    } else if f[0] == '.' && 2 <= f.len() <= 10 && all_digits(f.drop_first()) {
        Some(digits_value(f.drop_first()) * pow10((10 - f.len()) as nat))
    } else {
        None
    }
}

/// Whether `s[start..end]` are digits.
pub open spec fn digits_at(s: Seq<char>, start: int, end: int) -> bool {
    all_digits(s.subrange(start, end))
}

/// The calendar fields a wire timestamp names, if it is one:
/// `YYYY-MM-DDTHH:MM:SS`, an optional fraction of one to nine digits, `Z`,
/// naming a real date and time of day.
pub open spec fn parse_civil(s: Seq<char>) -> Option<CivilTime> {
    if s.len() < 20 || s.last() != 'Z' || s[4] != '-' || s[7] != '-' || s[10] != 'T' || s[13] != ':'
        || s[16] != ':' || !digits_at(s, 0, 4) || !digits_at(s, 5, 7) || !digits_at(s, 8, 10)
        || !digits_at(s, 11, 13) || !digits_at(s, 14, 16) || !digits_at(s, 17, 19) {
        None
    } else {
        match fraction_nanos(s.subrange(19, s.len() - 1)) {
            None => None,
            Some(n) => {
                let c = CivilTime {
                    year: digits_value(s.subrange(0, 4)) as u32,
                    month: digits_value(s.subrange(5, 7)) as u32,
                    day: digits_value(s.subrange(8, 10)) as u32,
                    hour: digits_value(s.subrange(11, 13)) as u32,
                    minute: digits_value(s.subrange(14, 16)) as u32,
                    second: digits_value(s.subrange(17, 19)) as u32,
                    nanosecond: n as u32,
                };
                if civil_valid(c) {
                    Some(c)
                } else {
                    None
                }
            },
        }
    }
}

/// The instant a wire timestamp names, if it is one.
pub open spec fn parse_instant(s: Seq<char>) -> Option<int> {
    match parse_civil(s) {
        Some(c) => Some(civil_instant(c)),
        None => None,
    }
}

proof fn lemma_digits_value_bound(s: Seq<char>)
    requires
        all_digits(s),
    ensures
        digits_value(s) < pow10(s.len()),
    decreases s.len(),
{
    if s.len() > 0 {
        assert(all_digits(s.drop_last())) by {
            assert forall|i: int| 0 <= i < s.drop_last().len() implies is_digit_char(
                #[trigger] s.drop_last()[i],
            ) by {
                assert(s.drop_last()[i] == s[i]);
            }
        }
        lemma_digits_value_bound(s.drop_last());
        assert(is_digit_char(s[s.len() - 1]));
    }
}

fn digits_in(v: &Vec<char>, start: usize, end: usize) -> (r: Option<u32>)
    requires
        start <= end <= v@.len(),
        end - start <= 9,
    ensures
        match r {
            Some(n) => digits_at(v@, start as int, end as int) && n == digits_value(
                v@.subrange(start as int, end as int),
            ) && n < pow10((end - start) as nat),
            None => !digits_at(v@, start as int, end as int),
        },
{
    let mut value: u32 = 0;
    let mut i = start;
    while i < end
        invariant
            start <= i <= end <= v@.len(),
            end - start <= 9,
            digits_at(v@, start as int, i as int),
            value == digits_value(v@.subrange(start as int, i as int)),
            value < pow10((i - start) as nat),
        decreases end - i,
    {
        let c = v[i];
        if !('0' <= c && c <= '9') {
            assert(v@.subrange(start as int, end as int)[i - start] == c);
            return None;
        }
        let ghost before = v@.subrange(start as int, i as int);
        assert(v@.subrange(start as int, i + 1).drop_last() =~= before);
        assert(pow10((i + 1 - start) as nat) == 10 * pow10((i - start) as nat));
        assert(pow10((i - start) as nat) <= 100_000_000) by {
            reveal_with_fuel(pow10, 10);
        }
        value = value * 10 + (c as u32 - 48);
        i = i + 1;
        assert(digits_at(v@, start as int, i as int)) by {
            assert forall|k: int| 0 <= k < i - start implies is_digit_char(
                #[trigger] v@.subrange(start as int, i as int)[k],
            ) by {
                if k < i - 1 - start {
                    assert(v@.subrange(start as int, i as int)[k] == before[k]);
                }
            }
        }
    }
    Some(value)
}

fn days_before_year_of(y: u32) -> (r: i64)
    requires
        y <= 9999,
    ensures
        r == days_before_year(y as nat),
{
    proof {
        lemma_days_before_year_closed(y as nat);
    }
    let y = y as i64;
    365 * y + (y + 3) / 4 - (y + 99) / 100 + (y + 399) / 400
}

fn days_before_month_of(y: u32, m: u32) -> (r: i64)
    requires
        1 <= m <= 12,
    ensures
        r == days_before_month(y as int, m as nat),
        0 <= r <= 366,
{
    let mut total: i64 = 0;
    let mut k: u32 = 1;
    proof {
        lemma_days_before_month_bound(y as int, 1);
    }
    while k < m
        invariant
            1 <= k <= m <= 12,
            total == days_before_month(y as int, k as nat),
            0 <= total,
        decreases m - k,
    {
        proof {
            lemma_days_before_month_bound(y as int, (k + 1) as nat);
            lemma_days_before_month_monotone(y as int, (k + 1) as nat, 13);
        }
        total = total + days_in_month(y, k) as i64;
        k = k + 1;
    }
    proof {
        lemma_days_before_month_monotone(y as int, m as nat, 13);
        lemma_days_before_month_bound(y as int, m as nat);
    }
    total
}

/// The instant a wire timestamp names, or `None` where the text is no
/// timestamp of the years 0000 to 9999 (a malformed text, an impossible
/// date or time of day).
pub fn parse_timestamp(s: &str) -> (r: Option<i128>)
    ensures
        match parse_instant(s@) {
            Some(t) => r == Some(t as i128),
            None => r is None,
        },
{
    let v = chars_of(s);
    let n = v.len();
    if n < 20 || v[n - 1] != 'Z' || v[4] != '-' || v[7] != '-' || v[10] != 'T' || v[13] != ':'
        || v[16] != ':' {
        return None;
    }
    let year = match digits_in(&v, 0, 4) {
        Some(x) => x,
        None => return None,
    };
    let month = match digits_in(&v, 5, 7) {
        Some(x) => x,
        None => return None,
    };
    let day = match digits_in(&v, 8, 10) {
        Some(x) => x,
        None => return None,
    };
    let hour = match digits_in(&v, 11, 13) {
        Some(x) => x,
        None => return None,
    };
    let minute = match digits_in(&v, 14, 16) {
        Some(x) => x,
        None => return None,
    };
    let second = match digits_in(&v, 17, 19) {
        Some(x) => x,
        None => return None,
    };
    let ghost frac = v@.subrange(19, n - 1);
    let nanosecond: u32 = if n == 20 {
        0
    } else {
        if v[19] != '.' || n > 30 || n < 22 {
            return None;
        }
        let digits = match digits_in(&v, 20, n - 1) {
            Some(x) => x,
            None => {
                assert(!all_digits(frac.drop_first())) by {
                    assert(frac.drop_first() =~= v@.subrange(20, n - 1));
                }
                return None;
            },
        };
        proof {
            assert(frac.drop_first() =~= v@.subrange(20, n - 1));
            lemma_digits_value_bound(v@.subrange(20, n - 1));
        }
        let mut value: u32 = digits;
        let mut k: usize = n - 21;
        assert(pow10(0) == 1);
        let ghost d0 = digits_value(v@.subrange(20, n - 1));
        assert(d0 * pow10(0) == d0) by (nonlinear_arith)
            requires
                pow10(0) == 1,
        ;
        assert((k - (n - 21)) as nat == 0);
        while k < 9
            invariant
                n == v@.len(),
                22 <= n <= 30,
                n - 21 <= k <= 9,
                value == digits_value(v@.subrange(20, n - 1)) * pow10((k - (n - 21)) as nat),
                digits_value(v@.subrange(20, n - 1)) < pow10((n - 21) as nat),
                value < pow10(k as nat),
            decreases 9 - k,
        {
            assert(pow10((k + 1) as nat) == 10 * pow10(k as nat));
            assert(pow10((k + 1 - (n - 21)) as nat) == 10 * pow10((k - (n - 21)) as nat));
            assert(pow10(k as nat) <= 100_000_000) by {
                reveal_with_fuel(pow10, 10);
            }
            let ghost d = digits_value(v@.subrange(20, n - 1));
            let ghost p = pow10((k - (n - 21)) as nat);
            assert(d * (10 * p) == (d * p) * 10) by (nonlinear_arith);
            value = value * 10;
            k = k + 1;
        }
        value
    };
    assert(pow10(9) == 1_000_000_000 && pow10(4) == 10_000 && pow10(2) == 100) by {
        reveal_with_fuel(pow10, 10);
    }
    let ghost c = CivilTime { year, month, day, hour, minute, second, nanosecond };
    assert(fraction_nanos(frac) == Some(nanosecond as nat));
    assert(parse_civil(v@) == if civil_valid(c) { Some(c) } else { None::<CivilTime> });
    if !(1 <= month && month <= 12) {
        return None;
    }
    if !(1 <= day && day <= days_in_month(year, month) && hour < 24 && minute < 60 && second < 60) {
        return None;
    }
    assert(civil_valid(c));
    proof {
        lemma_days_before_year_monotone(year as nat, 9999);
        lemma_days_before_year_closed(9999);
        lemma_days_before_year_monotone(0, year as nat);
    }
    let days: i64 = days_before_year_of(year) + days_before_month_of(year, month) + day as i64 - 1;
    let seconds: i128 = (days as i128 - 719_528) * 86_400 + hour as i128 * 3_600 + minute as i128
        * 60 + second as i128;
    let t: i128 = seconds * 1_000_000_000 + nanosecond as i128;
    assert(civil_day(c) == days);
    Some(t)
}

proof fn lemma_pow10_positive(k: nat)
    ensures
        pow10(k) > 0,
    decreases k,
{
    if k > 0 {
        lemma_pow10_positive((k - 1) as nat);
    }
}

proof fn lemma_digit_char_value(d: int)
    requires
        0 <= d < 10,
    ensures
        is_digit_char(digit_char(d)),
        (digit_char(d) as int) - 48 == d,
{
}

proof fn lemma_fixed_digits(n: nat, w: nat)
    ensures
        fixed_digits(n, w).len() == w,
        all_digits(fixed_digits(n, w)),
        digits_value(fixed_digits(n, w)) == n % pow10(w),
    decreases w,
{
    if w > 0 {
        let p = (w - 1) as nat;
        lemma_fixed_digits(n / 10, p);
        lemma_digit_char_value((n % 10) as int);
        let f = fixed_digits(n, w);
        assert(f.drop_last() =~= fixed_digits(n / 10, p));
        assert forall|i: int| 0 <= i < f.len() implies is_digit_char(#[trigger] f[i]) by {
            if i < f.len() - 1 {
                assert(f[i] == fixed_digits(n / 10, p)[i]);
            }
        }
        lemma_pow10_positive(p);
        vstd::arithmetic::div_mod::lemma_mod_breakdown(n as int, 10, pow10(p) as int);
        assert(pow10(w) == 10 * pow10(p));
        assert(digits_value(f) == (n / 10) % pow10(p) * 10 + n % 10);
    } else {
        assert(pow10(0) == 1);
    }
}

proof fn lemma_fixed_digits_exact(n: nat, w: nat)
    requires
        n < pow10(w),
    ensures
        fixed_digits(n, w).len() == w,
        all_digits(fixed_digits(n, w)),
        digits_value(fixed_digits(n, w)) == n,
{
    lemma_fixed_digits(n, w);
    lemma_pow10_positive(w);
    vstd::arithmetic::div_mod::lemma_small_mod(n, pow10(w));
}

/// The wire text of valid calendar fields parses back to those fields.
pub proof fn lemma_parse_civil_text(c: CivilTime)
    requires
        civil_valid(c),
    ensures
        parse_civil(civil_text(c)) == Some(c),
{
    assert(pow10(9) == 1_000_000_000 && pow10(4) == 10_000 && pow10(2) == 100) by {
        reveal_with_fuel(pow10, 10);
    }
    lemma_fixed_digits_exact(c.year as nat, 4);
    lemma_fixed_digits_exact(c.month as nat, 2);
    lemma_fixed_digits_exact(c.day as nat, 2);
    lemma_fixed_digits_exact(c.hour as nat, 2);
    lemma_fixed_digits_exact(c.minute as nat, 2);
    lemma_fixed_digits_exact(c.second as nat, 2);
    lemma_fixed_digits_exact(c.nanosecond as nat, 9);
    let s = civil_text(c);
    let fraction = if c.nanosecond == 0 {
        Seq::<char>::empty()
    } else {
        seq!['.'] + fixed_digits(c.nanosecond as nat, 9)
    };
    assert(s.subrange(0, 4) =~= fixed_digits(c.year as nat, 4));
    assert(s.subrange(5, 7) =~= fixed_digits(c.month as nat, 2));
    assert(s.subrange(8, 10) =~= fixed_digits(c.day as nat, 2));
    assert(s.subrange(11, 13) =~= fixed_digits(c.hour as nat, 2));
    assert(s.subrange(14, 16) =~= fixed_digits(c.minute as nat, 2));
    assert(s.subrange(17, 19) =~= fixed_digits(c.second as nat, 2));
    assert(s.subrange(19, s.len() - 1) =~= fraction);
    assert(s[4] == '-' && s[7] == '-' && s[10] == 'T' && s[13] == ':' && s[16] == ':');
    assert(s.last() == 'Z');
    if c.nanosecond != 0 {
        assert(fraction.drop_first() =~= fixed_digits(c.nanosecond as nat, 9));
        assert(pow10(0) == 1);
        assert(fraction.len() == 10 && fraction[0] == '.');
        assert(digits_value(fraction.drop_first()) == c.nanosecond);
        assert((c.nanosecond as nat) * pow10(0) == c.nanosecond as nat) by (nonlinear_arith)
            requires
                pow10(0) == 1,
        ;
        assert(fraction_nanos(fraction) == Some(c.nanosecond as nat));
    }
}

/// An instant of the years 0000 to 9999 written as wire text parses back to
/// the same instant.
pub proof fn lemma_timestamp_round_trip(t: int)
    requires
        first_instant() <= t < end_instant(),
    ensures
        parse_instant(timestamp_text(t)) == Some(t),
{
    let c = civil_of(t);
    lemma_civil_exists(t);
    lemma_parse_civil_text(c);
}

proof fn lemma_civil_exists(t: int)
    requires
        first_instant() <= t < end_instant(),
    ensures
        civil_valid(civil_of(t)),
        civil_instant(civil_of(t)) == t,
{
    lemma_epoch_day();
    let c = civil_witness(t);
    assert(civil_valid(c) && civil_instant(c) == t);
}

proof fn civil_witness(t: int) -> (c: CivilTime)
    requires
        first_instant() <= t < end_instant(),
    ensures
        civil_valid(c),
        civil_instant(c) == t,
{
    lemma_epoch_day();
    let shifted = t + 62_167_219_200_000_000_000;
    let day_count = shifted / 86_400_000_000_000;
    let within = shifted % 86_400_000_000_000;
    let sod = within / 1_000_000_000;
    let nanos = within % 1_000_000_000;
    let (year, month, day) = date_of_day(day_count);
    let c = CivilTime {
        year: year as u32,
        month: month as u32,
        day: day as u32,
        hour: (sod / 3_600) as u32,
        minute: ((sod % 3_600) / 60) as u32,
        second: (sod % 60) as u32,
        nanosecond: nanos as u32,
    };
    assert(civil_instant(c) == t);
    c
}

proof fn date_of_day(day_count: int) -> (r: (int, int, int))
    requires
        0 <= day_count < 3_652_425,
    ensures
        0 <= r.0 <= 9999,
        1 <= r.1 <= 12,
        1 <= r.2 <= month_days(r.0, r.1),
        days_before_year(r.0 as nat) + days_before_month(r.0, r.1 as nat) + r.2 - 1 == day_count,
{
    lemma_epoch_day();
    let y = year_of_day(day_count, 0);
    let rem = day_count - days_before_year(y as nat);
    let m = month_of_day(y, rem, 1);
    (y, m, rem - days_before_month(y, m as nat) + 1)
}

proof fn year_of_day(day_count: int, y: int) -> (r: int)
    requires
        0 <= y <= 10_000,
        days_before_year(y as nat) <= day_count < 3_652_425,
        days_before_year(10_000) == 3_652_425,
    ensures
        y <= r <= 9999,
        days_before_year(r as nat) <= day_count < days_before_year(r as nat) + year_days(r),
    decreases 10_000 - y,
{
    if day_count < days_before_year(y as nat) + year_days(y) {
        if y == 10_000 {
            assert(false);
        }
        y
    } else {
        if y == 10_000 {
            assert(false);
        }
        year_of_day(day_count, y + 1)
    }
}

proof fn month_of_day(y: int, rem: int, m: int) -> (r: int)
    requires
        1 <= m <= 12,
        days_before_month(y, m as nat) <= rem < year_days(y),
    ensures
        m <= r <= 12,
        days_before_month(y, r as nat) <= rem < days_before_month(y, r as nat) + month_days(y, r),
    decreases 12 - m,
{
    lemma_days_before_month_bound(y, (m + 1) as nat);
    if rem < days_before_month(y, m as nat) + month_days(y, m) {
        m
    } else {
        if m == 12 {
            assert(false);
        }
        month_of_day(y, rem, m + 1)
    }
}

} // verus!
