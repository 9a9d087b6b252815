//! Calendar dates and the fixed-width `YYYYMMDD` date keys derived from
//! them. A date key names both a cache file and the day an image entry
//! belongs to.

use vstd::prelude::*;

verus! {

/// Proleptic Gregorian leap-year rule.
pub open spec fn is_leap_year(y: int) -> bool {
    (y % 4 == 0 && y % 100 != 0) || y % 400 == 0
}

/// Length of month `m` (1-based) of year `y` in the proleptic Gregorian
/// calendar.
pub open spec fn days_in_month(y: int, m: int) -> int {
    if m == 2 {
        if is_leap_year(y) {
            29
        } else {
            28
        }
    } else if m == 4 || m == 6 || m == 9 || m == 11 {
        30
    } else {
        31
    }
}

/// The character for one decimal digit.
pub open spec fn digit_char(d: int) -> char {
    if d == 0 {
        '0'
    } else if d == 1 {
        '1'
    } else if d == 2 {
        '2'
    } else if d == 3 {
        '3'
    } else if d == 4 {
        '4'
    } else if d == 5 {
        '5'
    } else if d == 6 {
        '6'
    } else if d == 7 {
        '7'
    } else if d == 8 {
        '8'
    } else {
        '9'
    }
}

/// Decimal representation of `n`, most significant digit first, no leading
/// zeros (a single `'0'` for zero).
pub open spec fn dec_digits(n: nat) -> Seq<char>
    decreases n,
{
    if n < 10 {
        seq![digit_char(n as int)]
    } else {
        dec_digits(n / 10) + seq![digit_char((n % 10) as int)]
    }
}

/// A calendar day, restricted to years whose date key fits the fixed-width
/// four-digit year of the `YYYYMMDD` format.
#[derive(PartialEq, Eq, Structural, Clone, Copy, Debug)]
pub struct Date {
    pub year: u32,
    pub month: u32,
    pub day: u32,
}

impl Date {
    /// A valid calendar day with a four-digit year.
    pub open spec fn wf(self) -> bool {
        &&& 1 <= self.year <= 9999
        &&& 1 <= self.month <= 12
        &&& 1 <= self.day <= days_in_month(self.year as int, self.month as int)
    }

    /// The day after `self` in the Gregorian calendar.
    pub open spec fn next_day_spec(self) -> Date {
        if self.day < days_in_month(self.year as int, self.month as int) {
            Date { year: self.year, month: self.month, day: (self.day + 1) as u32 }
        } else if self.month < 12 {
            Date { year: self.year, month: (self.month + 1) as u32, day: 1 }
        } else {
            Date { year: (self.year + 1) as u32, month: 1, day: 1 }
        }
    }

    /// The eight characters of this date's key: four year digits, two month
    /// digits, two day digits.
    pub open spec fn key_chars(self) -> Seq<char> {
        seq![
            digit_char(self.year as int / 1000),
            digit_char((self.year as int / 100) % 10),
            digit_char((self.year as int / 10) % 10),
            digit_char(self.year as int % 10),
            digit_char(self.month as int / 10),
            digit_char(self.month as int % 10),
            digit_char(self.day as int / 10),
            digit_char(self.day as int % 10),
        ]
    }

    /// The day before `self`; defined for every well-formed date but the
    /// very first representable one.
    pub fn prev_day(&self) -> (r: Date)
        requires
            self.wf(),
            !(self.year == 1 && self.month == 1 && self.day == 1),
        ensures
            r.wf(),
            r.next_day_spec() == *self,
    {
        if self.day > 1 {
            Date { year: self.year, month: self.month, day: self.day - 1 }
        } else if self.month > 1 {
            let m = self.month - 1;
            Date { year: self.year, month: m, day: days_in_month_exec(self.year, m) }
        } else {
            Date { year: self.year - 1, month: 12, day: 31 }
        }
    }

    /// Formats this date as its `YYYYMMDD` key.
    pub fn date_key(&self) -> (r: String)
        requires
            self.wf(),
        ensures
            r@ == self.key_chars(),
    {
        let mut s = String::new();
        push_digit(&mut s, self.year / 1000);
        push_digit(&mut s, (self.year / 100) % 10);
        push_digit(&mut s, (self.year / 10) % 10);
        push_digit(&mut s, self.year % 10);
        push_digit(&mut s, self.month / 10);
        push_digit(&mut s, self.month % 10);
        push_digit(&mut s, self.day / 10);
        push_digit(&mut s, self.day % 10);
        proof {
            assert(s@ =~= self.key_chars());
        }
        s
    }
}

/// Length of month `m` of year `y`.
pub fn days_in_month_exec(y: u32, m: u32) -> (r: u32)
    requires
        1 <= m <= 12,
    ensures
        r == days_in_month(y as int, m as int),
{
    if m == 2 {
        if (y % 4 == 0 && y % 100 != 0) || y % 400 == 0 {
            29
        } else {
            28
        }
    } else if m == 4 || m == 6 || m == 9 || m == 11 {
        30
    } else {
        31
    }
}

/// Appends the character of one decimal digit to `s`.
fn push_digit(s: &mut String, d: u32)
    requires
        d < 10,
    ensures
        final(s)@ == old(s)@ + seq![digit_char(d as int)],
{
    let t: &str = if d == 0 {
        "0"
    } else if d == 1 {
        "1"
    } else if d == 2 {
        "2"
    } else if d == 3 {
        "3"
    } else if d == 4 {
        "4"
    } else if d == 5 {
        "5"
    } else if d == 6 {
        "6"
    } else if d == 7 {
        "7"
    } else if d == 8 {
        "8"
    } else {
        "9"
    };
    proof {
        reveal_strlit("0");
        reveal_strlit("1");
        reveal_strlit("2");
        reveal_strlit("3");
        reveal_strlit("4");
        reveal_strlit("5");
        reveal_strlit("6");
        reveal_strlit("7");
        reveal_strlit("8");
        reveal_strlit("9");
        assert(t@ =~= seq![digit_char(d as int)]);
    }
    s.append(t);
}

/// Appends the decimal representation of `n` to `s`.
pub fn push_decimal(s: &mut String, n: u32)
    ensures
        final(s)@ == old(s)@ + dec_digits(n as nat),
    decreases n,
{
    if n < 10 {
        push_digit(s, n);
    } else {
        push_decimal(s, n / 10);
        push_digit(s, n % 10);
        proof {
            assert(old(s)@ + dec_digits(n as nat) =~= old(s)@ + dec_digits(n as nat / 10) + seq![
                digit_char((n as nat % 10) as int),
            ]);
        }
    }
}

/// A number of at most four digits is the value of the four digits that
/// its key shows.
proof fn lemma_unfold_digits(y: int)
    requires
        0 <= y <= 9999,
    ensures
        y == 1000 * (y / 1000) + 100 * (y / 100 % 10) + 10 * (y / 10 % 10) + y % 10,
{
    vstd::arithmetic::div_mod::lemma_fundamental_div_mod(y, 10);
    vstd::arithmetic::div_mod::lemma_fundamental_div_mod(y / 10, 10);
    vstd::arithmetic::div_mod::lemma_div_denominator(y, 10, 10);
    vstd::arithmetic::div_mod::lemma_fundamental_div_mod(y / 100, 10);
    vstd::arithmetic::div_mod::lemma_div_denominator(y, 100, 10);
}

/// Distinct well-formed dates have distinct date keys, so the cache keeps
/// at most one file per calendar day.
pub proof fn lemma_date_key_injective(a: Date, b: Date)
    requires
        a.wf(),
        b.wf(),
        a.key_chars() == b.key_chars(),
    ensures
        a == b,
{
    assert(a.key_chars()[0] == b.key_chars()[0]);
    assert(a.key_chars()[1] == b.key_chars()[1]);
    assert(a.key_chars()[2] == b.key_chars()[2]);
    assert(a.key_chars()[3] == b.key_chars()[3]);
    assert(a.key_chars()[4] == b.key_chars()[4]);
    assert(a.key_chars()[5] == b.key_chars()[5]);
    assert(a.key_chars()[6] == b.key_chars()[6]);
    assert(a.key_chars()[7] == b.key_chars()[7]);
    lemma_unfold_digits(a.year as int);
    lemma_unfold_digits(b.year as int);
    vstd::arithmetic::div_mod::lemma_fundamental_div_mod(a.month as int, 10);
    vstd::arithmetic::div_mod::lemma_fundamental_div_mod(b.month as int, 10);
    vstd::arithmetic::div_mod::lemma_fundamental_div_mod(a.day as int, 10);
    vstd::arithmetic::div_mod::lemma_fundamental_div_mod(b.day as int, 10);
}

/// Yesterday's key never equals today's: a run's save and evict steps
/// touch two distinct cache files.
pub proof fn lemma_distinct_consecutive_keys(t: Date, y: Date)
    requires
        t.wf(),
        y.wf(),
        y.next_day_spec() == t,
    ensures
        y.key_chars() != t.key_chars(),
{
    assert(y != t);
    if y.key_chars() == t.key_chars() {
        lemma_date_key_injective(y, t);
    }
}

/// Relies on `chrono::DateTime::from_timestamp` and chrono's `Datelike`
/// accessors: the clock's current UTC day as (year, month, day), or
/// `None` when the clock reads before the epoch or outside chrono's date
/// range (only non-panicking paths are taken). A `chrono::NaiveDate`
/// only holds valid proleptic Gregorian calendar dates, `month` is
/// documented as 1..=12 and `day` as 1..=31, at most the month's length.
#[verifier::external_body]
fn utc_today() -> (r: Option<(i32, u32, u32)>)
    ensures
        r matches Some(t) ==> 1 <= t.1 <= 12,
        r matches Some(t) ==> 1 <= t.2 <= days_in_month(t.0 as int, t.1 as int),
{
    let since_epoch =
        std::time::SystemTime::now().duration_since(std::time::UNIX_EPOCH).ok()?;
    let secs = i64::try_from(since_epoch.as_secs()).ok()?;
    let d = chrono::DateTime::from_timestamp(secs, 0)?.date_naive();
    Some((chrono::Datelike::year(&d), chrono::Datelike::month(&d), chrono::Datelike::day(&d)))
}

/// Today's and yesterday's dates from one clock reading of a valid
/// calendar day: `Some` exactly when the day has a four-digit year and a
/// representable predecessor, today being that very day.
pub fn dates_from_ymd(y: i32, m: u32, d: u32) -> (r: Option<(Date, Date)>)
    requires
        1 <= m <= 12,
        1 <= d <= days_in_month(y as int, m as int),
    ensures
        r is Some <==> (1 <= y <= 9999 && !(y == 1 && m == 1 && d == 1)),
        r matches Some(p) ==> p.0 == (Date { year: y as u32, month: m, day: d }) && p.0.wf()
            && p.1.wf() && p.1.next_day_spec() == p.0,
{
    if 1 <= y && y <= 9999 && !(y == 1 && m == 1 && d == 1) {
        let today = Date { year: y as u32, month: m, day: d };
        let yesterday = today.prev_day();
        Some((today, yesterday))
    } else {
        None
    }
}

/// Today's and yesterday's dates from the system clock, or `None` when
/// the clock could not be read or its day has no four-digit year or no
/// representable predecessor.
pub fn current_and_previous_date() -> (r: Option<(Date, Date)>)
    ensures
        r matches Some(p) ==> p.0.wf() && p.1.wf() && p.1.next_day_spec() == p.0,
{
    match utc_today() {
        Some((y, m, d)) => dates_from_ymd(y, m, d),
        None => None,
    }
}

} // verus!
