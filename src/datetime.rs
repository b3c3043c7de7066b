//! Calendar instants in UTC and their ISO-8601 text.
use vstd::prelude::*;
use crate::params::digit_char;
use crate::text::{chars_of, push_char};
use crate::document::digits_value;

verus! {

/// An instant in UTC, to the millisecond.
#[derive(Clone, Copy, Debug, PartialEq, Eq)]
pub struct UtcDateTime {
    pub year: u16,
    pub month: u8,
    pub day: u8,
    pub hour: u8,
    pub minute: u8,
    pub second: u8,
    pub millisecond: u16,
}

/// Whether `year` is a leap year of the Gregorian calendar.
pub open spec fn leap_year(year: int) -> bool {
    (year % 4 == 0 && year % 100 != 0) || year % 400 == 0
}

/// The number of days of a month (1 to 12) of a year.
pub open spec fn days_in_month(year: int, month: int) -> int {
    if month == 2 {
        if leap_year(year) { 29 } else { 28 }
    } else if month == 4 || month == 6 || month == 9 || month == 11 {
        30
    } else {
        31
    }
}

/// Whether the fields name an instant that the fixed ISO-8601 profile can
/// write: a four-digit year, a real calendar day and a time of day.
pub open spec fn valid_fields(year: int, month: int, day: int, hour: int, minute: int, second: int, millisecond: int) -> bool {
    0 <= year <= 9999 && 1 <= month <= 12 && 1 <= day <= days_in_month(year, month) && 0 <= hour < 24
        && 0 <= minute < 60 && 0 <= second < 60 && 0 <= millisecond < 1000
}

/// The last `width` decimal digits of `n`, with leading zeros.
pub open spec fn padded(n: nat, width: nat) -> Seq<char>
    decreases width,
{
    if width == 0 {
        Seq::empty()
    } else {
        padded(n / 10, (width - 1) as nat).push(digit_char(n % 10))
    }
}

impl UtcDateTime {
    pub open spec fn wf(&self) -> bool {
        valid_fields(self.year as int, self.month as int, self.day as int, self.hour as int,
            self.minute as int, self.second as int, self.millisecond as int)
    }

    /// The text `YYYY-MM-DDTHH:MM:SS.mmmZ` of the instant.
    pub open spec fn iso8601(&self) -> Seq<char> {
        padded(self.year as nat, 4) + seq!['-'] + padded(self.month as nat, 2) + seq!['-']
            + padded(self.day as nat, 2) + seq!['T'] + padded(self.hour as nat, 2) + seq![':']
            + padded(self.minute as nat, 2) + seq![':'] + padded(self.second as nat, 2) + seq!['.']
            + padded(self.millisecond as nat, 3) + seq!['Z']
    }

    /// The instant with the given fields, or `None` when they name no instant
    /// (month 13, February 30, hour 24, a year past 9999, ...).
    pub fn new(year: u32, month: u32, day: u32, hour: u32, minute: u32, second: u32, millisecond: u32) -> (r: Option<UtcDateTime>)
        ensures
            r is Some <==> valid_fields(year as int, month as int, day as int, hour as int, minute as int, second as int, millisecond as int),
            r matches Some(d) ==> d.wf() && d.year == year && d.month == month && d.day == day && d.hour == hour
                && d.minute == minute && d.second == second && d.millisecond == millisecond,
    {
        if year > 9999 || month < 1 || month > 12 || day < 1 || hour >= 24 || minute >= 60 || second >= 60 || millisecond >= 1000 {
            return None;
        }
        let leap = (year % 4 == 0 && year % 100 != 0) || year % 400 == 0;
        let days: u32 = if month == 2 {
            if leap { 29 } else { 28 }
        } else if month == 4 || month == 6 || month == 9 || month == 11 {
            30
        } else {
            31
        };
        if day > days {
            return None;
        }
        Some(UtcDateTime {
            year: year as u16,
            month: month as u8,
            day: day as u8,
            hour: hour as u8,
            minute: minute as u8,
            second: second as u8,
            millisecond: millisecond as u16,
        })
    }

    /// Whether the fields name an instant that the fixed profile can write.
    pub fn is_valid(&self) -> (r: bool)
        ensures
            r == self.wf(),
    {
        UtcDateTime::new(self.year as u32, self.month as u32, self.day as u32, self.hour as u32,
            self.minute as u32, self.second as u32, self.millisecond as u32).is_some()
    }

    /// The instant written in the fixed ISO-8601 profile with milliseconds and `Z`.
    pub fn to_iso8601(&self) -> (r: String)
        requires
            self.wf(),
        ensures
            r@ == self.iso8601(),
    {
        let mut out = String::new();
        push_padded(&mut out, self.year as u64, 4);
        push_char(&mut out, '-');
        push_padded(&mut out, self.month as u64, 2);
        push_char(&mut out, '-');
        push_padded(&mut out, self.day as u64, 2);
        push_char(&mut out, 'T');
        push_padded(&mut out, self.hour as u64, 2);
        push_char(&mut out, ':');
        push_padded(&mut out, self.minute as u64, 2);
        push_char(&mut out, ':');
        push_padded(&mut out, self.second as u64, 2);
        push_char(&mut out, '.');
        push_padded(&mut out, self.millisecond as u64, 3);
        push_char(&mut out, 'Z');
        assert(out@ =~= self.iso8601());
        out
    }
}

fn digit_of(d: u64) -> (c: char)
    requires
        d < 10,
    ensures
        c == digit_char(d as nat),
{
    if d == 0 { '0' } else if d == 1 { '1' } else if d == 2 { '2' } else if d == 3 { '3' }
    else if d == 4 { '4' } else if d == 5 { '5' } else if d == 6 { '6' } else if d == 7 { '7' }
    else if d == 8 { '8' } else { '9' }
}

/// Appends the last `width` decimal digits of `n`, with leading zeros.
fn push_padded(out: &mut String, n: u64, width: u64)
    ensures
        final(out)@ == old(out)@ + padded(n as nat, width as nat),
    decreases width,
{
    if width == 0 {
        assert(old(out)@ + padded(n as nat, 0) =~= old(out)@);
    } else {
        push_padded(out, n / 10, width - 1);
        push_char(out, digit_of(n % 10));
        assert(out@ =~= old(out)@ + padded(n as nat, width as nat));
    }
}

/// Whether `s` holds decimal digits at positions `start .. start + len`.
pub open spec fn digits_in(s: Seq<char>, start: int, len: int) -> bool {
    0 <= start && start + len <= s.len() && forall|i: int| start <= i < start + len ==> '0' <= #[trigger] s[i] <= '9'
}

/// The value of the digits at positions `start .. start + len`.
pub open spec fn num_at(s: Seq<char>, start: int, len: int) -> int {
    digits_value(s.subrange(start, start + len))
}

/// Whether a UTC zone designator (`Z`, `+00:00` or `-00:00`) stands at
/// position `i` and ends the text.
pub open spec fn zone_at(s: Seq<char>, i: int) -> bool {
    ||| s.len() == i + 1 && s[i] == 'Z'
    ||| s.len() == i + 6 && (s[i] == '+' || s[i] == '-') && s[i + 1] == '0' && s[i + 2] == '0'
        && s[i + 3] == ':' && s[i + 4] == '0' && s[i + 5] == '0'
}

/// Whether `s` starts with `YYYY-MM-DDTHH:MM:SS`.
pub open spec fn date_time_prefix(s: Seq<char>) -> bool {
    s.len() >= 19 && digits_in(s, 0, 4) && s[4] == '-' && digits_in(s, 5, 2) && s[7] == '-'
        && digits_in(s, 8, 2) && s[10] == 'T' && digits_in(s, 11, 2) && s[13] == ':'
        && digits_in(s, 14, 2) && s[16] == ':' && digits_in(s, 17, 2)
}

/// Whether `s` has milliseconds after the seconds: `.mmm` and a zone.
pub open spec fn has_millis(s: Seq<char>) -> bool {
    s.len() > 19 && s[19] == '.' && digits_in(s, 20, 3) && zone_at(s, 23)
}

/// The UTC instant that an ISO-8601 text writes, in the forms
/// `YYYY-MM-DDTHH:MM:SS[.mmm]` followed by `Z`, `+00:00` or `-00:00`;
/// `None` for any other text or for fields that name no instant.
pub open spec fn parse_utc(s: Seq<char>) -> Option<UtcDateTime> {
    if date_time_prefix(s) && (zone_at(s, 19) || has_millis(s)) {
        let ms = if zone_at(s, 19) { 0 } else { num_at(s, 20, 3) };
        if valid_fields(num_at(s, 0, 4), num_at(s, 5, 2), num_at(s, 8, 2), num_at(s, 11, 2),
            num_at(s, 14, 2), num_at(s, 17, 2), ms) {
            Some(UtcDateTime {
                year: num_at(s, 0, 4) as u16,
                month: num_at(s, 5, 2) as u8,
                day: num_at(s, 8, 2) as u8,
                hour: num_at(s, 11, 2) as u8,
                minute: num_at(s, 14, 2) as u8,
                second: num_at(s, 17, 2) as u8,
                millisecond: ms as u16,
            })
        } else {
            None
        }
    } else {
        None
    }
}

pub open spec fn pow10(k: nat) -> nat
    decreases k,
{
    if k == 0 { 1 } else { 10 * pow10((k - 1) as nat) }
}

/// The value of the `len` (at most 4) digits of `cs` from `start`, if they are all digits.
fn fixed_digits(cs: &Vec<char>, start: usize, len: usize) -> (r: Option<u32>)
    requires
        len <= 4,
        start + len <= cs@.len(),
    ensures
        r is Some <==> digits_in(cs@, start as int, len as int),
        r matches Some(v) ==> v as int == num_at(cs@, start as int, len as int),
{
    let mut acc: u64 = 0;
    let mut bound: u64 = 1;
    let mut i: usize = start;
    assert(pow10(0) == 1);
    assert(pow10(1) == 10);
    assert(pow10(2) == 100);
    assert(pow10(3) == 1000);
    assert(pow10(4) == 10000);
    let n = cs.len();
    assert(start + len <= n);
    let end = start + len;
    while i < end
        invariant
            start <= i <= start + len,
            end == start + len,
            start + len <= cs@.len(),
            len <= 4,
            pow10(4) == 10000,
            bound as nat == pow10((i - start) as nat),
            acc < bound,
            acc == digits_value(cs@.subrange(start as int, i as int)),
            forall|k: int| start <= k < i ==> '0' <= #[trigger] cs@[k] <= '9',
        decreases end - i,
    {
        let c = cs[i];
        if !('0' <= c && c <= '9') {
            return None;
        }
        let d = (c as u32 - '0' as u32) as u64;
        proof {
            let p = cs@.subrange(start as int, i as int);
            let q = cs@.subrange(start as int, i + 1);
            assert(q.drop_last() =~= p);
            assert(pow10((i + 1 - start) as nat) == 10 * pow10((i - start) as nat));
            assert(pow10(0) == 1);
            assert(pow10(1) == 10);
            assert(pow10(2) == 100);
            assert(pow10(3) == 1000);
            assert(pow10((i - start) as nat) <= 1000);
            assert(acc * 10 + d < bound * 10) by (nonlinear_arith)
                requires acc < bound, d < 10;
        }
        acc = acc * 10 + d;
        bound = bound * 10;
        i = i + 1;
    }
    Some(acc as u32)
}

fn zone_ends(cs: &Vec<char>, i: usize) -> (r: bool)
    ensures
        r == zone_at(cs@, i as int),
{
    let n = cs.len();
    if i < n && n - i == 1 {
        cs[i] == 'Z'
    } else if i < n && n - i == 6 {
        (cs[i] == '+' || cs[i] == '-') && cs[i + 1] == '0' && cs[i + 2] == '0' && cs[i + 3] == ':'
            && cs[i + 4] == '0' && cs[i + 5] == '0'
    } else {
        false
    }
}

/// Reads an ISO-8601 UTC instant (`YYYY-MM-DDTHH:MM:SS[.mmm]` and `Z`,
/// `+00:00` or `-00:00`).
pub fn parse_iso8601(s: &str) -> (r: Option<UtcDateTime>)
    ensures
        r == parse_utc(s@),
        r matches Some(d) ==> d.wf(),
{
    let cs = chars_of(s);
    if cs.len() < 19 || cs[4] != '-' || cs[7] != '-' || cs[10] != 'T' || cs[13] != ':' || cs[16] != ':' {
        return None;
    }
    let year = match fixed_digits(&cs, 0, 4) { Some(v) => v, None => return None };
    let month = match fixed_digits(&cs, 5, 2) { Some(v) => v, None => return None };
    let day = match fixed_digits(&cs, 8, 2) { Some(v) => v, None => return None };
    let hour = match fixed_digits(&cs, 11, 2) { Some(v) => v, None => return None };
    let minute = match fixed_digits(&cs, 14, 2) { Some(v) => v, None => return None };
    let second = match fixed_digits(&cs, 17, 2) { Some(v) => v, None => return None };
    assert(date_time_prefix(cs@));
    let millisecond: u32 = if zone_ends(&cs, 19) {
        0
    } else if cs.len() > 23 && cs[19] == '.' && zone_ends(&cs, 23) {
        match fixed_digits(&cs, 20, 3) { Some(v) => v, None => return None }
    } else {
        return None;
    };
    UtcDateTime::new(year, month, day, hour, minute, second, millisecond)
}

} // verus!
