//! Time snapshots as bitmap glyph sequences, and calendar dates.
use vstd::prelude::*;

use chrono::Datelike as _;
use chrono::Timelike as _;

use crate::font;
use crate::font::digit_glyph;
use crate::font::is_glyph;

verus! {

/// Represents time as bitmap digits for ease of diffing and drawing.
///
/// The variant is the display shape: with or without seconds (`S` / `M`),
/// and 24-hour or 12-hour with a trailing AM/PM marker (`24` / `12`).
#[derive(Copy, Clone, Debug)]
pub enum Time {
    S24([u16; 8]),
    S12([u16; 11]),
    M24([u16; 5]),
    M12([u16; 8]),
}

/// Number of glyph slots shown for the given display mode.
pub open spec fn slot_count(second: bool, military: bool) -> nat {
    match (second, military) {
        (true, true) => 8,
        (true, false) => 11,
        (false, true) => 5,
        (false, false) => 8,
    }
}

/// The hour as a 12-hour clock shows it: `(pm, hour)` with `hour` in `1..=12`.
pub open spec fn hour12_of(hour: int) -> (bool, int) {
    (hour >= 12, if hour % 12 == 0 { 12 } else { hour % 12 })
}

/// The two glyphs of a number below one hundred, with a leading zero.
pub open spec fn two_digits(n: int) -> Seq<u16> {
    seq![digit_glyph(n / 10), digit_glyph(n % 10)]
}

/// The glyph sequence that displays `hour:minute[:sec][ AM|PM]`.
pub open spec fn clock_glyphs(hour: int, minute: int, sec: int, second: bool, military: bool) -> Seq<
    u16,
> {
    let (pm, h12) = hour12_of(hour);
    let h = if military {
        hour
    } else {
        h12
    };
    let hm = two_digits(h) + seq![font::COLON] + two_digits(minute);
    let hms = if second {
        hm + seq![font::COLON] + two_digits(sec)
    } else {
        hm
    };
    if military {
        hms
    } else {
        hms + seq![
            font::SPACE,
            if pm {
                font::P
            } else {
                font::A
            },
            font::M,
        ]
    }
}

/// Slot-by-slot exclusive or of two glyph sequences of one length.
pub open spec fn xor_seq(a: Seq<u16>, b: Seq<u16>) -> Seq<u16> {
    Seq::new(a.len(), |i: int| a[i] ^ b[i])
}

impl Time {
    /// The glyphs of the snapshot, in display order.
    pub open spec fn glyphs(self) -> Seq<u16> {
        match self {
            Time::S24(t) => t@,
            Time::S12(t) => t@,
            Time::M24(t) => t@,
            Time::M12(t) => t@,
        }
    }

    /// The display mode that the variant stands for.
    pub open spec fn has_shape(self, second: bool, military: bool) -> bool {
        match self {
            Time::S24(_) => second && military,
            Time::S12(_) => second && !military,
            Time::M24(_) => !second && military,
            Time::M12(_) => !second && !military,
        }
    }

    /// Both snapshots have one variant, so they can be diffed.
    pub open spec fn same_shape(self, other: Time) -> bool {
        match (self, other) {
            (Time::S24(_), Time::S24(_)) => true,
            (Time::S12(_), Time::S12(_)) => true,
            (Time::M24(_), Time::M24(_)) => true,
            (Time::M12(_), Time::M12(_)) => true,
            _ => false,
        }
    }

    /// An all-zero snapshot of the shape for the given mode: nothing drawn yet.
    pub fn blank(second: bool, military: bool) -> (t: Time)
        ensures
            t.has_shape(second, military),
            t.glyphs() == Seq::new(slot_count(second, military), |i: int| 0u16),
    {
        let t = match (second, military) {
            (true, true) => Time::S24([0; 8]),
            (true, false) => Time::S12([0; 11]),
            (false, true) => Time::M24([0; 5]),
            (false, false) => Time::M12([0; 8]),
        };
        assert(t.glyphs() =~= Seq::new(slot_count(second, military), |i: int| 0u16));
        t
    }

    /// Number of glyph slots for the given mode.
    pub fn width(second: bool, military: bool) -> (n: usize)
        ensures
            n == slot_count(second, military),
    {
        match (second, military) {
            (true, true) => 8,
            (true, false) => 11,
            (false, true) => 5,
            (false, false) => 8,
        }
    }
}


/// Splits a 24-hour clock hour into the PM flag and the 12-hour clock hour.
pub fn hour12(hour: u32) -> (r: (bool, u32))
    requires
        hour < 24,
    ensures
        r.0 == hour12_of(hour as int).0,
        r.1 == hour12_of(hour as int).1,
{
    let h = hour % 12;
    (hour >= 12, if h == 0 {
        12
    } else {
        h
    })
}

/// Exclusive or of two glyph arrays, slot by slot.
fn xor_glyphs<const N: usize>(l: &[u16; N], r: &[u16; N]) -> (d: [u16; N])
    ensures
        d@ == xor_seq(l@, r@),
{
    let mut d: [u16; N] = *l;
    let mut i: usize = 0;
    while i < N
        invariant
            i <= N,
            d@.len() == N,
            l@.len() == N,
            r@.len() == N,
            forall|j: int| 0 <= j < i ==> d@[j] == l@[j] ^ r@[j],
        decreases N - i,
    {
        d[i] = l[i] ^ r[i];
        i = i + 1;
    }
    assert(d@ =~= xor_seq(l@, r@));
    d
}

impl Time {
    /// Composes the glyphs of a time of day: hours, minutes and, when `second`
    /// is set, seconds, each with a leading zero and separated by colons; in
    /// 12-hour mode the hour runs `1..=12` and a space and AM or PM follow.
    pub fn new(hour: u32, minute: u32, sec: u32, second: bool, military: bool) -> (t: Time)
        requires
            hour < 24,
            minute < 60,
            sec < 60,
        ensures
            t.has_shape(second, military),
            t.glyphs() == clock_glyphs(hour as int, minute as int, sec as int, second, military),
    {
        let m = minute;
        let t = match (second, military) {
            (true, true) => {
                let h = hour;
                let s = sec;
                Time::S24(
                    [
                        font::digit(h / 10),
                        font::digit(h % 10),
                        font::COLON,
                        font::digit(m / 10),
                        font::digit(m % 10),
                        font::COLON,
                        font::digit(s / 10),
                        font::digit(s % 10),
                    ],
                )
            },
            (true, false) => {
                let (pm, h) = hour12(hour);
                let s = sec;
                Time::S12(
                    [
                        font::digit(h / 10),
                        font::digit(h % 10),
                        font::COLON,
                        font::digit(m / 10),
                        font::digit(m % 10),
                        font::COLON,
                        font::digit(s / 10),
                        font::digit(s % 10),
                        font::SPACE,
                        if pm {
                            font::P
                        } else {
                            font::A
                        },
                        font::M,
                    ],
                )
            },
            (false, true) => {
                let h = hour;
                Time::M24(
                    [
                        font::digit(h / 10),
                        font::digit(h % 10),
                        font::COLON,
                        font::digit(m / 10),
                        font::digit(m % 10),
                    ],
                )
            },
            (false, false) => {
                let (pm, h) = hour12(hour);
                Time::M12(
                    [
                        font::digit(h / 10),
                        font::digit(h % 10),
                        font::COLON,
                        font::digit(m / 10),
                        font::digit(m % 10),
                        font::SPACE,
                        if pm {
                            font::P
                        } else {
                            font::A
                        },
                        font::M,
                    ],
                )
            },
        };
        assert(t.glyphs() =~= clock_glyphs(hour as int, minute as int, sec as int, second, military));
        t
    }

    /// Whether both snapshots have one shape.
    pub fn is_same_shape(&self, other: &Time) -> (r: bool)
        ensures
            r == self.same_shape(*other),
    {
        match (self, other) {
            (Time::S24(_), Time::S24(_)) => true,
            (Time::S12(_), Time::S12(_)) => true,
            (Time::M24(_), Time::M24(_)) => true,
            (Time::M12(_), Time::M12(_)) => true,
            _ => false,
        }
    }

    /// The glyph in slot `idx`.
    pub fn get(&self, idx: usize) -> (g: u16)
        requires
            idx < self.glyphs().len(),
        ensures
            g == self.glyphs()[idx as int],
    {
        match self {
            Time::S24(t) => t[idx],
            Time::S12(t) => t[idx],
            Time::M24(t) => t[idx],
            Time::M12(t) => t[idx],
        }
    }

    /// The diff mask of two snapshots of one shape: bitwise exclusive or,
    /// slot by slot. A zero slot is a glyph that did not change.
    pub fn diff(&self, rhs: &Time) -> (d: Time)
        requires
            self.same_shape(*rhs),
        ensures
            d.same_shape(*self),
            d.glyphs() == xor_seq(self.glyphs(), rhs.glyphs()),
    {
        match (self, rhs) {
            (Time::S24(l), Time::S24(r)) => Time::S24(xor_glyphs(l, r)),
            (Time::S12(l), Time::S12(r)) => Time::S12(xor_glyphs(l, r)),
            (Time::M24(l), Time::M24(r)) => Time::M24(xor_glyphs(l, r)),
            (Time::M12(l), Time::M12(r)) => Time::M12(xor_glyphs(l, r)),
            // shapes differ: excluded by the precondition
            _ => *self,
        }
    }
}

/// The number of slots of a mode is the length of a blank snapshot of that mode.
pub proof fn lemma_width_matches_blank(second: bool, military: bool, t: Time)
    requires
        t.has_shape(second, military),
    ensures
        t.glyphs().len() == slot_count(second, military),
{
}

/// Diffing a snapshot with itself gives all zeros.
pub proof fn lemma_diff_self_zero(a: Time)
    ensures
        xor_seq(a.glyphs(), a.glyphs()) == Seq::new(a.glyphs().len(), |i: int| 0u16),
{
    assert forall|i: int| 0 <= i < a.glyphs().len() implies xor_seq(a.glyphs(), a.glyphs())[i]
        == 0u16 by {
        let x = a.glyphs()[i];
        assert(x ^ x == 0u16) by (bit_vector);
    }
    assert(xor_seq(a.glyphs(), a.glyphs()) =~= Seq::new(a.glyphs().len(), |i: int| 0u16));
}

/// Diffing is symmetric, and diffing the diff with one side gives back the other.
pub proof fn lemma_diff_symmetric_and_self_inverse(a: Time, b: Time)
    requires
        a.same_shape(b),
    ensures
        xor_seq(a.glyphs(), b.glyphs()) == xor_seq(b.glyphs(), a.glyphs()),
        xor_seq(xor_seq(a.glyphs(), b.glyphs()), b.glyphs()) == a.glyphs(),
{
    assert forall|i: int| 0 <= i < a.glyphs().len() implies xor_seq(a.glyphs(), b.glyphs())[i]
        == xor_seq(b.glyphs(), a.glyphs())[i] && xor_seq(xor_seq(a.glyphs(), b.glyphs()), b.glyphs())[i]
        == a.glyphs()[i] by {
        let x = a.glyphs()[i];
        let y = b.glyphs()[i];
        assert(x ^ y == y ^ x && (x ^ y) ^ y == x) by (bit_vector);
    }
    assert(xor_seq(a.glyphs(), b.glyphs()) =~= xor_seq(b.glyphs(), a.glyphs()));
    assert(xor_seq(xor_seq(a.glyphs(), b.glyphs()), b.glyphs()) =~= a.glyphs());
}


/// Whether `year-month-day` is a day of the proleptic Gregorian calendar.
pub open spec fn valid_date(year: int, month: int, day: int) -> bool {
    let leap = (year % 4 == 0 && year % 100 != 0) || year % 400 == 0;
    let days: int = if month == 2 {
        if leap {
            29
        } else {
            28
        }
    } else if month == 4 || month == 6 || month == 9 || month == 11 {
        30
    } else {
        31
    };
    1 <= month <= 12 && 1 <= day <= days
}

/// One reading of the local wall clock, as plain values.
#[derive(Copy, Clone, Debug)]
pub struct LocalReading {
    pub year: i32,
    pub month: u32,
    pub day: u32,
    pub hour: u32,
    pub minute: u32,
    pub second: u32,
    /// Nanoseconds into the second; above 999_999_999 during a leap second.
    pub nanosecond: u32,
}

impl LocalReading {
    /// Every field lies in its range.
    pub open spec fn wf(self) -> bool {
        &&& valid_date(self.year as int, self.month as int, self.day as int)
        &&& self.hour < 24
        &&& self.minute < 60
        &&& self.second < 60
        &&& self.nanosecond < 2_000_000_000
    }
}

/// Relies on chrono's `Local::now` with its `Datelike` and `Timelike`
/// accessors: a valid calendar date, hour below 24, minute and second below 60,
/// and a nanosecond below 2_000_000_000 (a leap second lifts it over 10^9).
#[verifier::external_body]
fn local_now() -> (r: LocalReading)
    ensures
        r.wf(),
{
    let now = chrono::Local::now().naive_local();
    LocalReading {
        year: now.year(),
        month: now.month(),
        day: now.day(),
        hour: now.hour(),
        minute: now.minute(),
        second: now.second(),
        nanosecond: now.nanosecond(),
    }
}

/// The text that strftime-style formatting of the date `year-month-day` with
/// `pattern` gives, or `None` where it fails.
pub uninterp spec fn date_text(year: i32, month: u32, day: u32, pattern: Seq<char>) -> Option<
    Seq<char>,
>;

/// Relies on chrono's `NaiveDate::format` with `DelayedFormat::write_to`:
/// strftime-style formatting of a date, which fails on a pattern that is
/// malformed or asks for what a date has not (an hour, an offset);
/// `NaiveDate::from_ymd_opt` builds the date from its fields.
#[verifier::external_body]
fn format_date(year: i32, month: u32, day: u32, pattern: &str) -> (r: Option<String>)
    ensures
        match r {
            Some(t) => date_text(year, month, day, pattern@) == Some(t@),
            None => date_text(year, month, day, pattern@) is None,
        },
{
    let date = chrono::NaiveDate::from_ymd_opt(year, month, day)?;
    let mut text = String::new();
    match date.format(pattern).write_to(&mut text) {
        Ok(()) => Some(text),
        Err(_) => None,
    }
}

/// `s` with every `%Z`, scanned left to right without overlap, replaced by `zone`.
pub open spec fn substitute_zone(s: Seq<char>, zone: Seq<char>) -> Seq<char>
    decreases s.len(),
{
    if s.len() < 2 {
        s
    } else if s[0] == '%' && s[1] == 'Z' {
        zone + substitute_zone(s.skip(2), zone)
    } else {
        seq![s[0]] + substitute_zone(s.skip(1), zone)
    }
}

/// Replaces each `%Z` of `s` with `zone`.
pub fn replace_zone(s: &str, zone: &str) -> (r: String)
    ensures
        r@ == substitute_zone(s@, zone@),
{
    let n = s.unicode_len();
    let mut r = String::new();
    let mut i: usize = 0;
    assert(s@.skip(0) =~= s@);
    assert(r@ + substitute_zone(s@, zone@) =~= substitute_zone(s@, zone@));
    while i < n
        invariant
            n == s@.len(),
            i <= n,
            r@ + substitute_zone(s@.skip(i as int), zone@) == substitute_zone(s@, zone@),
        decreases n - i,
    {
        let ghost rest = s@.skip(i as int);
        let ghost before = r@;
        if i + 1 < n && s.get_char(i) == '%' && s.get_char(i + 1) == 'Z' {
            r.append(zone);
            proof {
                assert(rest.skip(2) =~= s@.skip(i + 2));
                assert(substitute_zone(rest, zone@) == zone@ + substitute_zone(rest.skip(2), zone@));
                assert(r@ + substitute_zone(s@.skip(i + 2), zone@) =~= before + substitute_zone(
                    rest,
                    zone@,
                ));
            }
            i = i + 2;
        } else {
            r.append(s.substring_char(i, i + 1));
            proof {
                assert(rest.skip(1) =~= s@.skip(i + 1));
                if rest.len() < 2 {
                    assert(rest =~= seq![s@[i as int]]);
                    assert(s@.skip(i + 1) =~= Seq::<char>::empty());
                } else {
                    assert(substitute_zone(rest, zone@) == seq![rest[0]] + substitute_zone(
                        rest.skip(1),
                        zone@,
                    ));
                }
                assert(r@ + substitute_zone(s@.skip(i + 1), zone@) =~= before + substitute_zone(
                    rest,
                    zone@,
                ));
            }
            i = i + 1;
        }
    }
    assert(s@.skip(n as int) =~= Seq::<char>::empty());
    r
}

/// A calendar date together with the label of its time zone.
#[derive(Clone, Debug)]
pub struct Date {
    year: i32,
    month: u32,
    day: u32,
    zone: String,
}

/// What a date holds: year, month, day, and the zone label.
pub struct DateView {
    pub year: i32,
    pub month: u32,
    pub day: u32,
    pub zone: Seq<char>,
}

impl View for Date {
    type V = DateView;

    closed spec fn view(&self) -> DateView {
        DateView { year: self.year, month: self.month, day: self.day, zone: self.zone@ }
    }
}

impl Date {
    /// The date `year-month-day` in the zone labelled `zone`.
    pub fn new(year: i32, month: u32, day: u32, zone: &str) -> (d: Date)
        ensures
            d@ == (DateView { year, month, day, zone: zone@ }),
    {
        Date { year, month, day, zone: String::from_str(zone) }
    }

    /// A placeholder that no sampled date equals: 0001-01-01, with an empty zone.
    pub fn blank() -> (d: Date)
        ensures
            d@ == (DateView { year: 1, month: 1, day: 1, zone: Seq::empty() }),
    {
        Date { year: 1, month: 1, day: 1, zone: String::new() }
    }

    /// Appends the date formatted with `fmt`, each `%Z` of it first replaced
    /// by the zone label; where formatting fails, returns false and appends
    /// nothing.
    pub fn format(&self, fmt: &str, buffer: &mut String) -> (ok: bool)
        ensures
            ({
                let text = date_text(
                    self@.year,
                    self@.month,
                    self@.day,
                    substitute_zone(fmt@, self@.zone),
                );
                &&& ok == text is Some
                &&& ok ==> final(buffer)@ == old(buffer)@ + text->Some_0
                &&& !ok ==> final(buffer)@ == old(buffer)@
            }),
    {
        let pattern = replace_zone(fmt, self.zone.as_str());
        match format_date(self.year, self.month, self.day, pattern.as_str()) {
            Some(text) => {
                buffer.append(text.as_str());
                true
            },
            None => false,
        }
    }
}

impl PartialEq for Date {
    fn eq(&self, other: &Date) -> (r: bool) {
        self.day == other.day && self.month == other.month && self.year == other.year
            && self.zone == other.zone
    }
}

impl vstd::std_specs::cmp::PartialEqSpecImpl for Date {
    open spec fn obeys_eq_spec() -> bool {
        true
    }

    open spec fn eq_spec(&self, other: &Date) -> bool {
        self@ == other@
    }
}

/// The date and the time that a reading shows, in the given mode.
pub open spec fn reading_shows(
    r: LocalReading,
    tz: Seq<char>,
    second: bool,
    military: bool,
    date: Date,
    time: Time,
) -> bool {
    &&& date@ == (DateView { year: r.year, month: r.month, day: r.day, zone: tz })
    &&& time.has_shape(second, military)
    &&& time.glyphs() == clock_glyphs(
        r.hour as int,
        r.minute as int,
        r.second as int,
        second,
        military,
    )
}

/// The date and time of a reading of the wall clock, with the given display mode.
pub fn at(reading: &LocalReading, tz: &str, second: bool, military: bool) -> (r: (Date, Time))
    requires
        reading.wf(),
    ensures
        reading_shows(*reading, tz@, second, military, r.0, r.1),
{
    let date = Date::new(reading.year, reading.month, reading.day, tz);
    let time = Time::new(reading.hour, reading.minute, reading.second, second, military);
    (date, time)
}

/// The date and time are what some reading of the wall clock shows.
pub open spec fn sampled(tz: Seq<char>, second: bool, military: bool, date: Date, time: Time) -> bool {
    exists|reading: LocalReading| reading.wf() && reading_shows(reading, tz, second, military, date, time)
}

/// Retrieves current date and time with provided formatting modifiers.
pub fn now(tz: &str, second: bool, military: bool) -> (r: (Date, Time))
    ensures
        sampled(tz@, second, military, r.0, r.1),
{
    let reading = local_now();
    at(&reading, tz, second, military)
}

/// Nanoseconds from a reading `nanosecond` into the second (above
/// 999_999_999 during a leap second) to the next whole second.
pub fn nanos_to_next_second(nanosecond: u32) -> (r: u64)
    requires
        nanosecond < 2_000_000_000,
    ensures
        r == 1_000_000_000 - nanosecond % 1_000_000_000,
        1 <= r <= 1_000_000_000,
{
    1_000_000_000 - (nanosecond % 1_000_000_000) as u64
}

/// Nanoseconds from now to the next whole second of the wall clock.
pub fn until_next_second() -> (r: u64)
    ensures
        1 <= r <= 1_000_000_000,
{
    nanos_to_next_second(local_now().nanosecond)
}

} // verus!
