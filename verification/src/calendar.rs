//! Proleptic Gregorian calendar arithmetic and the strict UTC millisecond
//! timestamp text `YYYY-MM-DDTHH:MM:SS.mmmZ`.

use vstd::prelude::*;
use vstd::arithmetic::div_mod::{lemma_fundamental_div_mod, lemma_fundamental_div_mod_converse};
use vstd::utf8::{encode_scalar, encode_utf8};
use crate::text::{digit_char, nat_decimal, push_char, u64_to_decimal};
use vstd::string::StringSliceAdditionalSpecFns;

verus! {

/// Division rounding toward zero, as Rust's `/` on signed integers.
pub open spec fn tdiv(a: int, b: int) -> int {
    if a >= 0 {
        a / b
    } else {
        -((-a) / b)
    }
}

/// Days from 1970-01-01 to the given civil date (year, month, day), by the
/// era-based method: March-based years, 400-year eras of 146097 days.
pub open spec fn days_from_civil_spec(year: int, month: int, day: int) -> int {
    let y = year - (if month <= 2 { 1int } else { 0int });
    let era = y / 400;
    let yoe = y - era * 400;
    let sm = month + (if month > 2 { -3int } else { 9int });
    let doy = tdiv(153 * sm + 2, 5) + day - 1;
    let doe = yoe * 365 + yoe / 4 - yoe / 100 + doy;
    era * 146097 + doe - 719468
}

/// The civil date (year, month, day) that lies `days` days after 1970-01-01.
pub open spec fn civil_from_days_spec(days: int) -> (int, int, int) {
    let shifted = days + 719468;
    let era = shifted / 146097;
    let doe = shifted - era * 146097;
    let yoe = (doe - doe / 1460 + doe / 36524 - doe / 146096) / 365;
    let year0 = yoe + era * 400;
    let doy = doe - (365 * yoe + yoe / 4 - yoe / 100);
    let mp = tdiv(5 * doy + 2, 153);
    let day = doy - tdiv(153 * mp + 2, 5) + 1;
    let month = mp + (if mp < 10 { 3int } else { -9int });
    let year = year0 + (if month <= 2 { 1int } else { 0int });
    (year, month, day)
}

/// Gregorian leap year.
pub open spec fn is_leap(year: int) -> bool {
    year % 4 == 0 && (year % 100 != 0 || year % 400 == 0)
}

/// The number of days in a month, or 0 for a month outside 1..=12.
pub open spec fn month_days_spec(year: int, month: int) -> int {
    if month == 1 || month == 3 || month == 5 || month == 7 || month == 8 || month == 10 || month
        == 12 {
        31
    } else if month == 4 || month == 6 || month == 9 || month == 11 {
        30
    } else if month == 2 {
        if is_leap(year) {
            29
        } else {
            28
        }
    } else {
        0
    }
}

/// A valid civil date.
pub open spec fn valid_date(year: int, month: int, day: int) -> bool {
    1 <= month <= 12 && 1 <= day <= month_days_spec(year, month)
}

/// Euclidean division of a signed number by a positive one (`i64::div_euclid`).
pub fn div_euclid_i64(a: i64, b: i64) -> (q: i64)
    requires
        b > 0,
    ensures
        q == a / b,
{
    if a >= 0 {
        a / b
    } else {
        let n = -(a + 1);
        let t = n / b;
        proof {
            lemma_fundamental_div_mod(n as int, b as int);
            let r = n % b;
            assert(a == (-t - 1) * b + (b - 1 - r)) by (nonlinear_arith)
                requires
                    n == b * t + r,
                    n == -a - 1,
            ;
            lemma_fundamental_div_mod_converse(a as int, b as int, -t - 1, b - 1 - r);
        }
        -t - 1
    }
}

/// Rust's `/` on a signed numerator and a positive divisor, rounding toward zero.
fn tdiv_i64(a: i64, b: i64) -> (q: i64)
    requires
        b > 0,
        a > i64::MIN,
    ensures
        q == tdiv(a as int, b as int),
{
    if a >= 0 {
        a / b
    } else {
        -((-a) / b)
    }
}

/// Days from 1970-01-01 to a civil date.
pub fn days_from_civil(year: i64, month: i64, day: i64) -> (r: i64)
    requires
        -1_000_000_000_000 <= year <= 1_000_000_000_000,
        -1_000_000_000_000 <= month <= 1_000_000_000_000,
        -1_000_000_000_000 <= day <= 1_000_000_000_000,
    ensures
        r == days_from_civil_spec(year as int, month as int, day as int),
{
    let year = year - (if month <= 2 { 1i64 } else { 0i64 });
    let era = div_euclid_i64(year, 400);
    proof {
        lemma_fundamental_div_mod(year as int, 400);
        assert(-2_600_000_000 <= era <= 2_600_000_000);
    }
    let year_of_era = year - era * 400;
    let shifted_month = month + if month > 2 { -3i64 } else { 9i64 };
    let day_of_year = tdiv_i64(153 * shifted_month + 2, 5) + day - 1;
    let day_of_era = year_of_era * 365 + year_of_era / 4 - year_of_era / 100 + day_of_year;
    era * 146_097 + day_of_era - 719_468
}

/// The civil date `days` days after 1970-01-01.
pub fn civil_from_days(days: i64) -> (r: (i64, i64, i64))
    requires
        -1_000_000_000_000_000 <= days <= 1_000_000_000_000_000,
    ensures
        (r.0 as int, r.1 as int, r.2 as int) == civil_from_days_spec(days as int),
{
    let shifted = days + 719_468;
    let era = div_euclid_i64(shifted, 146_097);
    proof {
        lemma_fundamental_div_mod(shifted as int, 146_097);
        assert(-7_000_000_000_000 <= era <= 7_000_000_000_000);
    }
    let day_of_era = shifted - era * 146_097;
    let year_of_era = (day_of_era - day_of_era / 1_460 + day_of_era / 36_524 - day_of_era / 146_096)
        / 365;
    let mut year = year_of_era + era * 400;
    let day_of_year = day_of_era - (365 * year_of_era + year_of_era / 4 - year_of_era / 100);
    let month_prime = tdiv_i64(5 * day_of_year + 2, 153);
    let day = day_of_year - tdiv_i64(153 * month_prime + 2, 5) + 1;
    let month = month_prime + if month_prime < 10 { 3i64 } else { -9i64 };
    year = year + (if month <= 2 { 1i64 } else { 0i64 });
    (year, month, day)
}


/// The first day of March-based year `yoe` of an era, counted from the era's start.
pub open spec fn year_start(yoe: int) -> int {
    365 * yoe + yoe / 4 - yoe / 100
}

/// Inside a 400-year era, the year-of-era formula finds the March-based year
/// that contains day `doe`.
proof fn lemma_year_of_era(doe: int)
    requires
        0 <= doe <= 146096,
    ensures
        ({
            let yoe = (doe - doe / 1460 + doe / 36524 - doe / 146096) / 365;
            &&& 0 <= yoe <= 399
            &&& year_start(yoe) <= doe
            &&& yoe < 399 ==> doe < year_start(yoe + 1)
        }),
{
}

/// Counting days back from the civil date of a day gives that day again.
pub proof fn lemma_days_from_civil_of_civil_from_days(days: int)
    ensures
        ({
            let (y, m, d) = civil_from_days_spec(days);
            days_from_civil_spec(y, m, d) == days
        }),
{
    let shifted = days + 719468;
    let era = shifted / 146097;
    let doe = shifted - era * 146097;
    lemma_fundamental_div_mod(shifted, 146097);
    lemma_year_of_era(doe);
    let yoe = (doe - doe / 1460 + doe / 36524 - doe / 146096) / 365;
    let doy = doe - year_start(yoe);
    assert(0 <= doy <= 365);
    let mp = (5 * doy + 2) / 153;
    assert(0 <= mp <= 11);
    let y2 = yoe + era * 400;
    assert(y2 / 400 == era) by {
        lemma_fundamental_div_mod_converse(y2, 400, era, yoe);
    }
}

/// The length in days of March-based month `sm` (0 = March, 11 = February)
/// of a year whose February has `feb` days.
pub open spec fn shifted_month_len(sm: int, feb: int) -> int {
    if sm == 11 {
        feb
    } else if sm == 1 || sm == 3 || sm == 6 || sm == 8 {
        30
    } else {
        31
    }
}

/// Within a March-based year, the month formula inverts the day-of-year formula.
proof fn lemma_month_of_day_of_year(sm: int, d: int, feb: int)
    requires
        0 <= sm <= 11,
        28 <= feb <= 29,
        1 <= d <= shifted_month_len(sm, feb),
    ensures
        ({
            let doy = (153 * sm + 2) / 5 + d - 1;
            &&& 0 <= doy <= 336 + feb
            &&& (5 * doy + 2) / 153 == sm
            &&& doy - (153 * sm + 2) / 5 + 1 == d
        }),
{
}

/// The length of March-based year `yoe` of an era.
proof fn lemma_year_length(yoe: int)
    requires
        0 <= yoe <= 398,
    ensures
        year_start(yoe + 1) - year_start(yoe) == 365 + (if (yoe + 1) % 4 == 0 { 1int } else { 0int })
            - (if (yoe + 1) % 100 == 0 { 1int } else { 0int }),
{
}

/// The civil date of the day count of a valid civil date is that date.
pub proof fn lemma_civil_from_days_of_days_from_civil(year: int, month: int, day: int)
    requires
        valid_date(year, month, day),
    ensures
        civil_from_days_spec(days_from_civil_spec(year, month, day)) == (year, month, day),
{
    let shift = if month <= 2 { 1int } else { 0int };
    let y = year - shift;
    let era = y / 400;
    lemma_fundamental_div_mod(y, 400);
    let yoe = y - era * 400;
    let sm = month + (if month > 2 { -3int } else { 9int });
    let feb = if is_leap(yoe + 1 + era * 400) { 29int } else { 28int };
    assert(month == 2 ==> year == yoe + 1 + era * 400);
    assert(day <= shifted_month_len(sm, feb));
    lemma_month_of_day_of_year(sm, day, feb);
    let doy = (153 * sm + 2) / 5 + day - 1;
    assert(tdiv(153 * sm + 2, 5) == (153 * sm + 2) / 5);
    let doe = year_start(yoe) + doy;
    assert((yoe + 1 + era * 400) % 4 == (yoe + 1) % 4) by {
        lemma_fundamental_div_mod_converse(yoe + 1 + era * 400, 4, (yoe + 1) / 4 + era * 100, (yoe + 1) % 4);
    }
    assert((yoe + 1 + era * 400) % 100 == (yoe + 1) % 100) by {
        lemma_fundamental_div_mod_converse(yoe + 1 + era * 400, 100, (yoe + 1) / 100 + era * 4, (yoe + 1) % 100);
    }
    assert((yoe + 1 + era * 400) % 400 == (yoe + 1) % 400) by {
        lemma_fundamental_div_mod_converse(yoe + 1 + era * 400, 400, era + (yoe + 1) / 400, (yoe + 1) % 400);
    }
    if yoe <= 398 {
        lemma_year_length(yoe);
        assert(doy < year_start(yoe + 1) - year_start(yoe));
    }
    assert(0 <= doe <= 146096);
    let shifted = era * 146097 + doe;
    assert(days_from_civil_spec(year, month, day) + 719468 == shifted);
    assert(shifted / 146097 == era) by {
        lemma_fundamental_div_mod_converse(shifted, 146097, era, doe);
    }
    assert(shifted - (shifted / 146097) * 146097 == doe);
    lemma_year_of_era(doe);
    let yoe2 = (doe - doe / 1460 + doe / 36524 - doe / 146096) / 365;
    assert(yoe2 == yoe);
    assert(doe - year_start(yoe) == doy);
    assert(tdiv(5 * doy + 2, 153) == sm);
    assert(tdiv(153 * sm + 2, 5) == (153 * sm + 2) / 5);
}


/// Within a March-based year, the month and day formulas give a day of a
/// real month of that year.
proof fn lemma_month_from_day_of_year(doy: int, feb: int)
    requires
        28 <= feb <= 29,
        0 <= doy <= 336 + feb,
    ensures
        ({
            let mp = (5 * doy + 2) / 153;
            let day = doy - (153 * mp + 2) / 5 + 1;
            &&& 0 <= mp <= 11
            &&& 1 <= day <= shifted_month_len(mp, feb)
        }),
{
}

/// The civil date of any day is a valid date; from 1970 on, its year is at
/// least 1970.
pub proof fn lemma_civil_from_days_valid(days: int)
    ensures
        ({
            let (y, m, d) = civil_from_days_spec(days);
            &&& valid_date(y, m, d)
            &&& days >= 0 ==> y >= 1970
        }),
{
    let shifted = days + 719468;
    let era = shifted / 146097;
    let doe = shifted - era * 146097;
    lemma_fundamental_div_mod(shifted, 146097);
    lemma_year_of_era(doe);
    let yoe = (doe - doe / 1460 + doe / 36524 - doe / 146096) / 365;
    let doy = doe - year_start(yoe);
    let fy = yoe + 1 + era * 400;
    let feb = if is_leap(fy) { 29int } else { 28int };
    assert(fy % 4 == (yoe + 1) % 4) by {
        lemma_fundamental_div_mod_converse(fy, 4, (yoe + 1) / 4 + era * 100, (yoe + 1) % 4);
    }
    assert(fy % 100 == (yoe + 1) % 100) by {
        lemma_fundamental_div_mod_converse(fy, 100, (yoe + 1) / 100 + era * 4, (yoe + 1) % 100);
    }
    assert(fy % 400 == (yoe + 1) % 400) by {
        lemma_fundamental_div_mod_converse(fy, 400, era + (yoe + 1) / 400, (yoe + 1) % 400);
    }
    if yoe <= 398 {
        lemma_year_length(yoe);
    }
    assert(0 <= doy <= 336 + feb);
    lemma_month_from_day_of_year(doy, feb);
    let mp = (5 * doy + 2) / 153;
    assert(tdiv(5 * doy + 2, 153) == mp);
    assert(tdiv(153 * mp + 2, 5) == (153 * mp + 2) / 5);
    if days >= 0 {
        assert(era >= 4);
        if era == 4 {
            assert(doe >= 131080);
        }
    }
}


// ---------------------------------------------------------------------------
// Timestamp text
// ---------------------------------------------------------------------------

/// The decimal numeral of `n`, left-padded with zeros to at least `w` digits.
pub open spec fn padded(n: nat, w: nat) -> Seq<char> {
    let d = nat_decimal(n);
    if d.len() >= w {
        d
    } else {
        Seq::new((w - d.len()) as nat, |i: int| '0') + d
    }
}

/// The decimal text of `n` zero-padded to `width` digits (`{:0width$}`).
pub fn pad_decimal(n: u64, width: usize) -> (r: String)
    ensures
        r@ == padded(n as nat, width as nat),
{
    let digits = u64_to_decimal(n);
    let len = digits.as_str().unicode_len();
    if len >= width {
        return digits;
    }
    let mut out = String::new();
    let mut i: usize = 0;
    while i < width - len
        invariant
            len < width,
            i <= width - len,
            out@ == Seq::new(i as nat, |k: int| '0'),
        decreases width - len - i,
    {
        push_char(&mut out, '0');
        assert(out@ =~= Seq::new((i + 1) as nat, |k: int| '0'));
        i = i + 1;
    }
    out.append(digits.as_str());
    out
}

/// The UTC text of a non-negative millisecond count since the epoch.
pub open spec fn utc_text(ms: int) -> Seq<char> {
    let seconds = ms / 1000;
    let millis = ms % 1000;
    let days = seconds / 86400;
    let sid = seconds % 86400;
    let (y, m, d) = civil_from_days_spec(days);
    padded(y as nat, 4) + "-"@ + padded(m as nat, 2) + "-"@ + padded(d as nat, 2) + "T"@ + padded(
        (sid / 3600) as nat,
        2,
    ) + ":"@ + padded(((sid % 3600) / 60) as nat, 2) + ":"@ + padded((sid % 60) as nat, 2) + "."@
        + padded(millis as nat, 3) + "Z"@
}

/// The UTC text `YYYY-MM-DDTHH:MM:SS.mmmZ` of an epoch millisecond count;
/// a negative count is an invalid clock reading.
pub fn utc_from_millis(epoch_millis: i64) -> (r: Result<String, String>)
    ensures
        epoch_millis < 0 ==> (r matches Err(e) && e@ == "m6_org_consult_clock_invalid"@),
        epoch_millis >= 0 ==> (r matches Ok(t) && t@ == utc_text(epoch_millis as int)),
{
    if epoch_millis < 0 {
        return Err(String::from_str("m6_org_consult_clock_invalid"));
    }
    let seconds = epoch_millis / 1000;
    let millis = epoch_millis % 1000;
    let days = seconds / 86_400;
    let seconds_in_day = seconds % 86_400;
    proof {
        lemma_civil_from_days_valid(days as int);
    }
    let (year, month, day) = civil_from_days(days);
    let mut t = pad_decimal(year as u64, 4);
    t.append("-");
    let p = pad_decimal(month as u64, 2);
    t.append(p.as_str());
    t.append("-");
    let p = pad_decimal(day as u64, 2);
    t.append(p.as_str());
    t.append("T");
    let p = pad_decimal((seconds_in_day / 3_600) as u64, 2);
    t.append(p.as_str());
    t.append(":");
    let p = pad_decimal(((seconds_in_day % 3_600) / 60) as u64, 2);
    t.append(p.as_str());
    t.append(":");
    let p = pad_decimal((seconds_in_day % 60) as u64, 2);
    t.append(p.as_str());
    t.append(".");
    let p = pad_decimal(millis as u64, 3);
    t.append(p.as_str());
    t.append("Z");
    Ok(t)
}

/// An ASCII decimal digit byte.
pub open spec fn is_digit_byte(b: u8) -> bool {
    48 <= b <= 57
}

pub open spec fn all_digit_bytes(bs: Seq<u8>) -> bool {
    forall|i: int| 0 <= i < bs.len() ==> is_digit_byte(#[trigger] bs[i])
}

/// The value of a run of decimal digit bytes.
pub open spec fn digits_value(bs: Seq<u8>) -> int
    decreases bs.len(),
{
    if bs.len() == 0 {
        0
    } else {
        digits_value(bs.drop_last()) * 10 + (bs.last() - 48)
    }
}

/// What `i64::from_str` accepts of a short byte run: an optional `+` or `-`
/// followed by at least one decimal digit, and nothing else.
pub open spec fn parse_int_bytes(bs: Seq<u8>) -> Option<int> {
    if bs.len() == 0 {
        None
    } else if bs[0] == 43 || bs[0] == 45 {
        let rest = bs.drop_first();
        if rest.len() == 0 || !all_digit_bytes(rest) {
            None
        } else if bs[0] == 45 {
            Some(-digits_value(rest))
        } else {
            Some(digits_value(rest))
        }
    } else if all_digit_bytes(bs) {
        Some(digits_value(bs))
    } else {
        None
    }
}

/// The separators of `YYYY-MM-DDTHH:MM:SS.mmmZ` at their byte positions.
pub open spec fn utc_layout(b: Seq<u8>) -> bool {
    &&& b.len() == 24
    &&& b[4] == 45
    &&& b[7] == 45
    &&& b[10] == 84
    &&& b[13] == 58
    &&& b[16] == 58
    &&& b[19] == 46
    &&& b[23] == 90
}

/// The epoch milliseconds a timestamp's UTF-8 bytes denote, or `None` when
/// the text is not a valid timestamp from 1970 on.
pub open spec fn utc_millis_of(b: Seq<u8>) -> Option<int> {
    if !utc_layout(b) {
        None
    } else {
        let year = parse_int_bytes(b.subrange(0, 4));
        let month = parse_int_bytes(b.subrange(5, 7));
        let day = parse_int_bytes(b.subrange(8, 10));
        let hour = parse_int_bytes(b.subrange(11, 13));
        let minute = parse_int_bytes(b.subrange(14, 16));
        let second = parse_int_bytes(b.subrange(17, 19));
        let millis = parse_int_bytes(b.subrange(20, 23));
        if year is None || month is None || day is None || hour is None || minute is None
            || second is None || millis is None {
            None
        } else {
            let y = year->0;
            let mo = month->0;
            let d = day->0;
            let h = hour->0;
            let mi = minute->0;
            let s = second->0;
            let ms = millis->0;
            if y < 1970 || d < 1 || d > month_days_spec(y, mo) || h > 23 || mi > 59 || s > 59 || ms
                > 999 {
                None
            } else {
                Some(
                    days_from_civil_spec(y, mo, d) * 86_400_000 + h * 3_600_000 + mi * 60_000 + s
                        * 1000 + ms,
                )
            }
        }
    }
}

/// Parses `bytes[start..end]` as `i64::from_str` would.
fn parse_int_range(bytes: &Vec<u8>, start: usize, end: usize) -> (r: Option<i64>)
    requires
        start < end <= bytes.len(),
        end - start <= 4,
    ensures
        match parse_int_bytes(bytes@.subrange(start as int, end as int)) {
            Some(v) => r == Some(v as i64) && -9999 <= v <= 9999,
            None => r is None,
        },
{
    let ghost bs = bytes@.subrange(start as int, end as int);
    let first = bytes[start];
    let negative = first == 45u8;
    let signed = first == 43u8 || first == 45u8;
    let from = if signed { start + 1 } else { start };
    if from == end {
        return None;
    }
    let ghost digits = bytes@.subrange(from as int, end as int);
    proof {
        if signed {
            assert(digits =~= bs.drop_first());
        } else {
            assert(digits =~= bs);
        }
    }
    let mut v: i64 = 0;
    let mut i: usize = from;
    while i < end
        invariant
            from <= i <= end <= bytes.len(),
            end - from <= 4,
            digits == bytes@.subrange(from as int, end as int),
            bs.len() > 0,
            bs == bytes@.subrange(start as int, end as int),
            signed == (bs[0] == 43 || bs[0] == 45),
            signed ==> digits == bs.drop_first(),
            !signed ==> digits == bs,
            all_digit_bytes(bytes@.subrange(from as int, i as int)),
            v == digits_value(bytes@.subrange(from as int, i as int)),
            0 <= v < 10000,
            i - from <= 4,
            v < 1 * (if i - from == 0 { 1int } else if i - from == 1 { 10int } else if i - from == 2 {
                100int
            } else if i - from == 3 { 1000int } else { 10000int }),
        decreases end - i,
    {
        let b = bytes[i];
        if b < 48u8 || b > 57u8 {
            proof {
                assert(digits[i - from] == b);
                assert(!is_digit_byte(digits[i - from]));
                assert(!all_digit_bytes(digits));
            }
            return None;
        }
        proof {
            let pre = bytes@.subrange(from as int, i as int);
            let post = bytes@.subrange(from as int, i + 1);
            assert(post.drop_last() =~= pre);
            assert(post.last() == b);
        }
        v = v * 10 + (b - 48u8) as i64;
        i = i + 1;
    }
    proof {
        assert(bytes@.subrange(from as int, end as int) =~= digits);
    }
    if negative {
        Some(-v)
    } else {
        Some(v)
    }
}

/// Parses a strict UTC millisecond timestamp `YYYY-MM-DDTHH:MM:SS.mmmZ` from
/// 1970 on into epoch milliseconds. Every refusal has the same message.
pub fn parse_utc_millis(value: &str) -> (r: Result<i64, String>)
    ensures
        match utc_millis_of(value.spec_bytes()) {
            Some(v) => r matches Ok(x) && x == v,
            None => r matches Err(e) && e@ == "m6_org_consult_utc_millis_required"@,
        },
{
    let bytes = value.as_bytes_vec();
    if bytes.len() != 24 || bytes[4] != 45u8 || bytes[7] != 45u8 || bytes[10] != 84u8 || bytes[13]
        != 58u8 || bytes[16] != 58u8 || bytes[19] != 46u8 || bytes[23] != 90u8 {
        return Err(String::from_str("m6_org_consult_utc_millis_required"));
    }
    let year = parse_int_range(&bytes, 0, 4);
    let month = parse_int_range(&bytes, 5, 7);
    let day = parse_int_range(&bytes, 8, 10);
    let hour = parse_int_range(&bytes, 11, 13);
    let minute = parse_int_range(&bytes, 14, 16);
    let second = parse_int_range(&bytes, 17, 19);
    let millis = parse_int_range(&bytes, 20, 23);
    let (year, month, day, hour, minute, second, millis) = match (
        year,
        month,
        day,
        hour,
        minute,
        second,
        millis,
    ) {
        (Some(a), Some(b), Some(c), Some(d), Some(e), Some(f), Some(g)) => (a, b, c, d, e, f, g),
        _ => {
            return Err(String::from_str("m6_org_consult_utc_millis_required"));
        },
    };
    let leap = year % 4 == 0 && (year % 100 != 0 || year % 400 == 0);
    let month_days: i64 = if month == 1 || month == 3 || month == 5 || month == 7 || month == 8
        || month == 10 || month == 12 {
        31
    } else if month == 4 || month == 6 || month == 9 || month == 11 {
        30
    } else if month == 2 && leap {
        29
    } else if month == 2 {
        28
    } else {
        0
    };
    proof {
        if year >= 1970 {
            assert(leap == is_leap(year as int));
        }
    }
    if year < 1970 || day < 1 || day > month_days || hour > 23 || minute > 59 || second > 59
        || millis > 999 {
        return Err(String::from_str("m6_org_consult_utc_millis_required"));
    }
    let days = days_from_civil(year, month, day);
    let total = days * 86_400_000 + hour * 3_600_000 + minute * 60_000 + second * 1_000 + millis;
    Ok(total)
}

// ---------------------------------------------------------------------------
// Reading back a written timestamp
// ---------------------------------------------------------------------------

/// The bytes of an ASCII text, one per character.
pub open spec fn ascii_bytes(s: Seq<char>) -> Seq<u8> {
    s.map_values(|c: char| (c as u32) as u8)
}

/// Every character of a text is ASCII.
pub open spec fn is_ascii_text(s: Seq<char>) -> bool {
    forall|i: int| 0 <= i < s.len() ==> (#[trigger] s[i] as u32) < 128
}

/// `10^k`.
pub open spec fn pow10(k: nat) -> nat
    decreases k,
{
    if k == 0 {
        1
    } else {
        10 * pow10((k - 1) as nat)
    }
}

proof fn lemma_ascii_bytes_concat(a: Seq<char>, b: Seq<char>)
    ensures
        ascii_bytes(a + b) == ascii_bytes(a) + ascii_bytes(b),
{
    assert(ascii_bytes(a + b) =~= ascii_bytes(a) + ascii_bytes(b));
}

/// An ASCII text is encoded byte for byte.
proof fn lemma_encode_ascii(s: Seq<char>)
    requires
        is_ascii_text(s),
    ensures
        encode_utf8(s) == ascii_bytes(s),
    decreases s.len(),
{
    if s.len() > 0 {
        let v = s[0] as u32;
        assert(v < 128);
        assert((v & 0x7F) as u8 == v as u8) by (bit_vector)
            requires
                v < 128,
        ;
        assert(encode_scalar(v) =~= seq![v as u8]);
        assert(is_ascii_text(s.drop_first()));
        lemma_encode_ascii(s.drop_first());
        assert(ascii_bytes(s) =~= seq![v as u8] + ascii_bytes(s.drop_first()));
    } else {
        assert(ascii_bytes(s) =~= Seq::<u8>::empty());
    }
}

proof fn lemma_digit_char(d: nat)
    requires
        d < 10,
    ensures
        (digit_char(d) as u32) == 48 + d,
{
}

/// A decimal numeral is ASCII digits whose value is the number, no longer
/// than the number of digits its bound allows.
proof fn lemma_nat_decimal(n: nat, k: nat)
    requires
        1 <= k,
        n < pow10(k),
    ensures
        1 <= nat_decimal(n).len() <= k,
        is_ascii_text(nat_decimal(n)),
        all_digit_bytes(ascii_bytes(nat_decimal(n))),
        digits_value(ascii_bytes(nat_decimal(n))) == n,
    decreases n,
{
    if n < 10 {
        lemma_digit_char(n);
        assert(ascii_bytes(nat_decimal(n)) =~= seq![(48 + n) as u8]);
        assert(ascii_bytes(nat_decimal(n)).drop_last() =~= Seq::<u8>::empty());
        assert(digits_value(Seq::<u8>::empty()) == 0);
        assert(ascii_bytes(nat_decimal(n)).last() == (48 + n) as u8);
    } else {
        let q = n / 10;
        let r = n % 10;
        if k == 1 {
            assert(pow10(1) == 10) by {
                assert(pow10(0) == 1);
            }
        }
        assert(k >= 2);
        assert(pow10(k) == 10 * pow10((k - 1) as nat));
        assert(q < pow10((k - 1) as nat));
        lemma_nat_decimal(q, (k - 1) as nat);
        lemma_digit_char(r);
        let d = nat_decimal(q);
        assert(nat_decimal(n) == d.push(digit_char(r)));
        let b = ascii_bytes(nat_decimal(n));
        assert(b =~= ascii_bytes(d).push((48 + r) as u8));
        assert(b.drop_last() =~= ascii_bytes(d));
        assert(b.last() == (48 + r) as u8);
        lemma_fundamental_div_mod(n as int, 10);
        assert(digits_value(b) == q * 10 + r);
    }
}

/// Leading zeros change neither the digits nor their value.
proof fn lemma_zero_prefix(z: nat, d: Seq<u8>)
    requires
        all_digit_bytes(d),
    ensures
        all_digit_bytes(Seq::new(z, |i: int| 48u8) + d),
        digits_value(Seq::new(z, |i: int| 48u8) + d) == digits_value(d),
    decreases z, d.len(),
{
    let zs = Seq::new(z, |i: int| 48u8);
    if d.len() == 0 {
        assert(zs + d =~= zs);
        if z > 0 {
            let zs1 = Seq::new((z - 1) as nat, |i: int| 48u8);
            assert(zs.drop_last() =~= zs1 + Seq::<u8>::empty());
            lemma_zero_prefix((z - 1) as nat, Seq::<u8>::empty());
        }
    } else {
        assert((zs + d).drop_last() =~= zs + d.drop_last());
        assert((zs + d).last() == d.last());
        lemma_zero_prefix(z, d.drop_last());
    }
}

/// The zero-padded numeral of a number below `10^w` is exactly `w` ASCII
/// digits whose value is the number.
proof fn lemma_padded(n: nat, w: nat)
    requires
        1 <= w,
        n < pow10(w),
    ensures
        padded(n, w).len() == w,
        is_ascii_text(padded(n, w)),
        parse_int_bytes(ascii_bytes(padded(n, w))) == Some(n as int),
{
    lemma_nat_decimal(n, w);
    let d = nat_decimal(n);
    let p = padded(n, w);
    let z = (w - d.len()) as nat;
    assert(Seq::new(z, |i: int| '0') + d =~= p);
    lemma_ascii_bytes_concat(Seq::new(z, |i: int| '0'), d);
    assert(ascii_bytes(Seq::new(z, |i: int| '0')) =~= Seq::new(z, |i: int| 48u8));
    lemma_zero_prefix(z, ascii_bytes(d));
    let b = ascii_bytes(p);
    assert(b[0] == 48 || is_digit_byte(b[0]));
}

proof fn lemma_ascii_concat(a: Seq<char>, b: Seq<char>)
    requires
        is_ascii_text(a),
        is_ascii_text(b),
    ensures
        is_ascii_text(a + b),
{
    assert forall|i: int| 0 <= i < (a + b).len() implies ((a + b)[i] as u32) < 128 by {
        if i < a.len() {
            assert((a + b)[i] == a[i]);
        } else {
            assert((a + b)[i] == b[i - a.len()]);
        }
    }
}

/// Before year 10000 begins, the civil year has four digits.
proof fn lemma_year_below_ten_thousand(days: int)
    requires
        0 <= days < 2932897,
    ensures
        civil_from_days_spec(days).0 <= 9999,
{
    let shifted = days + 719468;
    let era = shifted / 146097;
    let doe = shifted - era * 146097;
    lemma_fundamental_div_mod(shifted, 146097);
    lemma_year_of_era(doe);
    assert(era <= 24);
    let yoe = (doe - doe / 1460 + doe / 36524 - doe / 146096) / 365;
    let doy = doe - year_start(yoe);
    if era == 24 && yoe == 399 {
        assert(doe < 146037);
        assert(doy < 306);
        assert((5 * doy + 2) / 153 < 10);
        assert(tdiv(5 * doy + 2, 153) == (5 * doy + 2) / 153);
    }
}

/// The first millisecond of year 10000: the timestamp text of every earlier
/// non-negative count has a four-digit year.
pub open spec fn utc_text_limit() -> int {
    253402300800000
}

/// A timestamp written from a millisecond count reads back as that count,
/// for every count from the epoch up to the end of year 9999.
pub proof fn lemma_utc_text_round_trip(ms: int)
    requires
        0 <= ms < utc_text_limit(),
    ensures
        utc_millis_of(encode_utf8(utc_text(ms))) == Some(ms),
{
    let seconds = ms / 1000;
    let millis = ms % 1000;
    let days = seconds / 86400;
    let sid = seconds % 86400;
    lemma_fundamental_div_mod(ms, 1000);
    lemma_fundamental_div_mod(seconds, 86400);
    assert(0 <= days < 2932897);
    lemma_civil_from_days_valid(days);
    lemma_days_from_civil_of_civil_from_days(days);
    lemma_year_below_ten_thousand(days);
    let (y, m, d) = civil_from_days_spec(days);
    let h = sid / 3600;
    let mi = (sid % 3600) / 60;
    let sec = sid % 60;
    lemma_fundamental_div_mod(sid, 3600);
    lemma_fundamental_div_mod(sid % 3600, 60);
    assert(sid % 60 == (sid % 3600) % 60) by {
        lemma_fundamental_div_mod_converse(sid, 60, h * 60 + mi, (sid % 3600) % 60);
    }
    assert(pow10(1) == 10 && pow10(2) == 100 && pow10(3) == 1000 && pow10(4) == 10000) by {
        reveal_with_fuel(pow10, 5);
    }
    lemma_padded(y as nat, 4);
    lemma_padded(m as nat, 2);
    lemma_padded(d as nat, 2);
    lemma_padded(h as nat, 2);
    lemma_padded(mi as nat, 2);
    lemma_padded(sec as nat, 2);
    lemma_padded(millis as nat, 3);
    let py = padded(y as nat, 4);
    let pm = padded(m as nat, 2);
    let pd = padded(d as nat, 2);
    let ph = padded(h as nat, 2);
    let pmi = padded(mi as nat, 2);
    let ps = padded(sec as nat, 2);
    let pml = padded(millis as nat, 3);
    reveal_strlit("-");
    reveal_strlit("T");
    reveal_strlit(":");
    reveal_strlit(".");
    reveal_strlit("Z");
    let date = py + seq!['-'] + pm + seq!['-'] + pd;
    let time = seq!['T'] + ph + seq![':'] + pmi + seq![':'] + ps;
    let tail = seq!['.'] + pml + seq!['Z'];
    let t = date + time + tail;
    assert(utc_text(ms) =~= t);
    assert(is_ascii_text(seq!['-']) && is_ascii_text(seq!['T']) && is_ascii_text(seq![':'])
        && is_ascii_text(seq!['.']) && is_ascii_text(seq!['Z']));
    lemma_ascii_concat(py, seq!['-']);
    lemma_ascii_concat(py + seq!['-'], pm);
    lemma_ascii_concat(py + seq!['-'] + pm, seq!['-']);
    lemma_ascii_concat(py + seq!['-'] + pm + seq!['-'], pd);
    lemma_ascii_concat(seq!['T'], ph);
    lemma_ascii_concat(seq!['T'] + ph, seq![':']);
    lemma_ascii_concat(seq!['T'] + ph + seq![':'], pmi);
    lemma_ascii_concat(seq!['T'] + ph + seq![':'] + pmi, seq![':']);
    lemma_ascii_concat(seq!['T'] + ph + seq![':'] + pmi + seq![':'], ps);
    lemma_ascii_concat(seq!['.'], pml);
    lemma_ascii_concat(seq!['.'] + pml, seq!['Z']);
    lemma_ascii_concat(date, time);
    lemma_ascii_concat(date + time, tail);
    lemma_encode_ascii(t);
    let b = ascii_bytes(t);
    assert(b.len() == 24);
    assert(b.subrange(0, 4) =~= ascii_bytes(py));
    assert(b.subrange(5, 7) =~= ascii_bytes(pm));
    assert(b.subrange(8, 10) =~= ascii_bytes(pd));
    assert(b.subrange(11, 13) =~= ascii_bytes(ph));
    assert(b.subrange(14, 16) =~= ascii_bytes(pmi));
    assert(b.subrange(17, 19) =~= ascii_bytes(ps));
    assert(b.subrange(20, 23) =~= ascii_bytes(pml));
    assert(utc_layout(b));
    assert(days_from_civil_spec(y, m, d) * 86_400_000 + h * 3_600_000 + mi * 60_000 + sec * 1000
        + millis == ms);
}

} // verus!
