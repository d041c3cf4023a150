//! Date and time stamps of the local clock.

use vstd::prelude::*;
use vstd::string::StrSliceExecFns;
use vstd::string::StringExecFns;
use chrono::Datelike;
use chrono::Local;
use chrono::Timelike;

verus! {

/// The character for one decimal digit.
pub open spec fn digit(d: nat) -> char
    recommends
        d < 10,
{
    if d == 0 {
        '0'
    } else if d == 1 {
        '1'
    } else if d == 2 {
        '2'
    } else if d == 3 {
        '3'
    } else if d == 4 {
        '4'
    } else if d == 5 {
        '5'
    } else if d == 6 {
        '6'
    } else if d == 7 {
        '7'
    } else if d == 8 {
        '8'
    } else {
        '9'
    }
}

/// `n` in decimal, without leading zeros.
pub open spec fn decimal(n: nat) -> Seq<char>
    decreases n,
{
    if n < 10 {
        seq![digit(n)]
    } else {
        decimal(n / 10).push(digit(n % 10))
    }
}

/// `n` in decimal, with a leading zero if it has one digit only.
pub open spec fn two_wide(n: nat) -> Seq<char> {
    if n < 10 {
        seq!['0'] + decimal(n)
    } else {
        decimal(n)
    }
}

/// The three-letter name of the month with index `m`, January being 0.
pub open spec fn month_abbrev(m: nat) -> Seq<char>
    recommends
        m < 12,
{
    if m == 0 {
        "Jan"@
    } else if m == 1 {
        "Feb"@
    } else if m == 2 {
        "Mar"@
    } else if m == 3 {
        "Apr"@
    } else if m == 4 {
        "May"@
    } else if m == 5 {
        "Jun"@
    } else if m == 6 {
        "Jul"@
    } else if m == 7 {
        "Aug"@
    } else if m == 8 {
        "Sep"@
    } else if m == 9 {
        "Oct"@
    } else if m == 10 {
        "Nov"@
    } else {
        "Dec"@
    }
}

/// One decimal digit as text.
fn digit_text(d: u32) -> (text: &'static str)
    requires
        d < 10,
    ensures
        text@ == seq![digit(d as nat)],
{
    proof {
        reveal_strlit("0");
        reveal_strlit("1");
        reveal_strlit("2");
        reveal_strlit("3");
        reveal_strlit("4");
        reveal_strlit("5");
        reveal_strlit("6");
        reveal_strlit("7");
        reveal_strlit("8");
        reveal_strlit("9");
    }
    let text = if d == 0 {
        "0"
    } else if d == 1 {
        "1"
    } else if d == 2 {
        "2"
    } else if d == 3 {
        "3"
    } else if d == 4 {
        "4"
    } else if d == 5 {
        "5"
    } else if d == 6 {
        "6"
    } else if d == 7 {
        "7"
    } else if d == 8 {
        "8"
    } else {
        "9"
    };
    assert(text@ =~= seq![digit(d as nat)]);
    text
}

/// Appends `n` in decimal to `out`.
fn push_decimal(out: &mut String, n: u32)
    ensures
        final(out)@ == old(out)@ + decimal(n as nat),
    decreases n,
{
    if n >= 10 {
        push_decimal(out, n / 10);
    }
    out.append(digit_text(n % 10));
    proof {
        if n >= 10 {
            assert(old(out)@ + decimal((n / 10) as nat) + seq![digit((n % 10) as nat)] =~= old(
                out,
            )@ + decimal(n as nat));
        }
    }
}

/// Appends `n` in decimal to `out`, with a leading zero if it has one digit
/// only.
fn push_two_wide(out: &mut String, n: u32)
    ensures
        final(out)@ == old(out)@ + two_wide(n as nat),
{
    if n < 10 {
        out.append("0");
        proof {
            reveal_strlit("0");
        }
    }
    push_decimal(out, n);
    proof {
        if n < 10 {
            assert(old(out)@ + "0"@ + decimal(n as nat) =~= old(out)@ + two_wide(n as nat));
        }
    }
}

/// The three-letter name of the month with index `m`, January being 0.
pub fn convert_month(m: usize) -> (name: &'static str)
    requires
        m < 12,
    ensures
        name@ == month_abbrev(m as nat),
{
    if m == 0 {
        "Jan"
    } else if m == 1 {
        "Feb"
    } else if m == 2 {
        "Mar"
    } else if m == 3 {
        "Apr"
    } else if m == 4 {
        "May"
    } else if m == 5 {
        "Jun"
    } else if m == 6 {
        "Jul"
    } else if m == 7 {
        "Aug"
    } else if m == 8 {
        "Sep"
    } else if m == 9 {
        "Oct"
    } else if m == 10 {
        "Nov"
    } else {
        "Dec"
    }
}

/// What a reading of the calendar and the clock stands for.
pub struct ReadingView {
    pub year: nat,
    pub month: nat,
    pub day: nat,
    pub hour: nat,
    pub minute: nat,
    pub second: nat,
}

impl ReadingView {
    /// The reading with these fields.
    pub open spec fn of(year: u32, month: u32, day: u32, hour: u32, minute: u32, second: u32)
        -> ReadingView {
        ReadingView {
            year: year as nat,
            month: month as nat,
            day: day as nat,
            hour: hour as nat,
            minute: minute as nat,
            second: second as nat,
        }
    }

    /// Whether every field is in the range that calendar and clock give it: a
    /// year counted from 1, a month from 1 to 12, a day from 1 to 31, an hour
    /// below 24, minute and second below 60.
    pub open spec fn in_range(self) -> bool {
        &&& 1 <= self.year <= u32::MAX
        &&& 1 <= self.month <= 12
        &&& 1 <= self.day <= 31
        &&& self.hour < 24
        &&& self.minute < 60
        &&& self.second < 60
    }

    /// The date as text: the day in two digits, the month's name and the
    /// year, with a space between them.
    pub open spec fn date_text(self) -> Seq<char> {
        two_wide(self.day) + " "@ + month_abbrev((self.month - 1) as nat) + " "@ + decimal(
            self.year,
        )
    }

    /// The time as text: hour, minute and second in two digits each, with a
    /// colon between them.
    pub open spec fn time_text(self) -> Seq<char> {
        two_wide(self.hour) + ":"@ + two_wide(self.minute) + ":"@ + two_wide(self.second)
    }
}

/// One reading of the calendar and the clock.
#[derive(Clone, Copy, Debug, PartialEq, Eq, Structural)]
pub struct Reading {
    year: u32,
    month: u32,
    day: u32,
    hour: u32,
    minute: u32,
    second: u32,
}

impl View for Reading {
    type V = ReadingView;

    closed spec fn view(&self) -> ReadingView {
        ReadingView {
            year: self.year as nat,
            month: self.month as nat,
            day: self.day as nat,
            hour: self.hour as nat,
            minute: self.minute as nat,
            second: self.second as nat,
        }
    }
}

impl Reading {
    #[verifier::type_invariant]
    spec fn valid(self) -> bool {
        self@.in_range()
    }

    /// The reading with these fields, if each is in its range.
    pub fn new(year: u32, month: u32, day: u32, hour: u32, minute: u32, second: u32) -> (reading:
        Option<Reading>)
        ensures
            match reading {
                Some(made) => made@ == ReadingView::of(year, month, day, hour, minute, second)
                    && made@.in_range(),
                None => !ReadingView::of(year, month, day, hour, minute, second).in_range(),
            },
    {
        if 1 <= year && 1 <= month && month <= 12 && 1 <= day && day <= 31 && hour < 24 && minute
            < 60 && second < 60 {
            Some(Reading { year, month, day, hour, minute, second })
        } else {
            None
        }
    }

    /// The date of the reading as text, such as `07 Mar 2021`.
    pub fn date_text(&self) -> (text: String)
        ensures
            text@ == self@.date_text(),
    {
        proof {
            use_type_invariant(self);
        }
        let mut text = String::new();
        push_two_wide(&mut text, self.day);
        text.append(" ");
        let index: usize = (self.month - 1) as usize;
        text.append(convert_month(index));
        text.append(" ");
        push_decimal(&mut text, self.year);
        assert(text@ =~= self@.date_text());
        text
    }

    /// The time of the reading as text, such as `09:05:00`.
    pub fn time_text(&self) -> (text: String)
        ensures
            text@ == self@.time_text(),
    {
        let mut text = String::new();
        push_two_wide(&mut text, self.hour);
        text.append(":");
        push_two_wide(&mut text, self.minute);
        text.append(":");
        push_two_wide(&mut text, self.second);
        assert(text@ =~= self@.time_text());
        text
    }
}

/// `chrono::Local::now`, and of the `DateTime` it gives the fields read by
/// `Datelike::year_ce`, `Datelike::month`, `Datelike::day`, `Timelike::hour`,
/// `Timelike::minute` and `Timelike::second`. The reading is the local clock's,
/// so nothing is claimed of it but the ranges those methods document: a year
/// counted from 1, a month from 1 to 12, a day from 1 to 31, an hour from 0 to
/// 23, minute and second from 0 to 59. Panics, as `Local::now` does, if the
/// system clock is set before 1970.
#[verifier::external_body]
fn read_local_clock() -> (reading: Reading)
    ensures
        reading@.in_range(),
{
    let now = Local::now();
    Reading {
        year: now.year_ce().1,
        month: now.month(),
        day: now.day(),
        hour: now.hour(),
        minute: now.minute(),
        second: now.second(),
    }
}

/// Whether `stamp` ends with a time zone as RFC 2822 writes it: a space, a
/// sign and four digits.
pub open spec fn ends_with_zone(stamp: Seq<char>) -> bool {
    &&& stamp.len() >= 6
    &&& stamp[stamp.len() - 6] == ' '
    &&& stamp[stamp.len() - 5] == '+' || stamp[stamp.len() - 5] == '-'
    &&& forall|i: int| stamp.len() - 4 <= i < stamp.len() ==> '0' <= #[trigger] stamp[i] <= '9'
}

/// `chrono::DateTime::to_rfc2822` of `chrono::Local::now`: the local date and
/// time as RFC 2822 writes them, such as `Tue, 1 Jul 2003 10:52:37 +0200`. The
/// text is the local clock's, so nothing is claimed of it but that it ends with
/// the zone: a space, a sign, two digits for the hours and two for the minutes.
/// Panics, as those two do, if the system clock is set before 1970 or to a
/// year after 9999.
#[verifier::external_body]
fn local_rfc2822() -> (stamp: String)
    ensures
        ends_with_zone(stamp@),
{
    Local::now().to_rfc2822()
}

/// `stamp` without its last six characters: an RFC 2822 date and time without
/// the time zone.
pub fn strip_zone(stamp: &str) -> (stripped: String)
    requires
        stamp@.len() >= 6,
    ensures
        stripped@ == stamp@.take(stamp@.len() - 6),
{
    let length = stamp.unicode_len();
    let kept = stamp.substring_char(0, length - 6);
    String::from_str(kept)
}

/// The local date and time, such as `Tue, 1 Jul 2003 10:52:37`: the clock's
/// RFC 2822 stamp without its time zone. The system clock has to be set to a
/// year from 1970 to 9999.
pub fn date_time_stamp() -> (stamp: String)
    ensures
        exists|full: Seq<char>| #[trigger]
            ends_with_zone(full) && stamp@ == full.take(full.len() - 6),
{
    let full = local_rfc2822();
    strip_zone(full.as_str())
}

/// The local date, such as `07 Mar 2021`. The system clock has to be set to
/// 1970 or later.
pub fn date_stamp() -> (stamp: String)
    ensures
        exists|reading: ReadingView| #[trigger]
            reading.in_range() && stamp@ == reading.date_text(),
{
    let now = read_local_clock();
    now.date_text()
}

/// The local time, such as `09:05:00`. The system clock has to be set to 1970
/// or later.
pub fn time_stamp() -> (stamp: String)
    ensures
        exists|reading: ReadingView| #[trigger]
            reading.in_range() && stamp@ == reading.time_text(),
{
    let now = read_local_clock();
    now.time_text()
}

} // verus!
