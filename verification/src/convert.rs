//! From a tick count to a calendar date and time.

use crate::calendar::{utc_instant, utc_timestamp, MAX_TIMESTAMP, MIN_TIMESTAMP};
use crate::decimal::{all_digits, decimal_i64, is_digit, parse_i64};
use crate::units::{classify, classify_spec, lemma_split_exact, Units, SECONDS_LIMIT};
use chrono::NaiveDateTime;
use vstd::prelude::*;

verus! {

impl Units {
    /// Whether `raw` ticks of this unit can be turned into a date: the ticks
    /// left over by the whole seconds are not negative, and the whole seconds
    /// lie within the calendar.
    ///
    /// Every `raw` from zero up that is read in the unit its magnitude gives
    /// (see [`classify_spec`]) can; below zero, only whole seconds.
    pub open spec fn converts(self, raw: int) -> bool {
        &&& 0 <= self.remainder_ticks(raw)
        &&& MIN_TIMESTAMP <= self.whole_seconds(raw) <= MAX_TIMESTAMP
    }

    /// The date and time, in UTC, of the instant `i` ticks of this unit after
    /// the epoch: that of the whole seconds in `i` and of what they leave
    /// over, in nanoseconds.
    pub fn to_date_time(&self, i: i64) -> (dt: NaiveDateTime)
        requires
            self.converts(i as int),
        ensures
            dt == utc_instant(self.whole_seconds(i as int), self.subsec_nanos(i as int)),
    {
        proof {
            lemma_split_exact(*self, i as int);
        }
        let seconds: i64 = i / self.per_second();
        let remaining: i64 = i - (seconds * self.per_second());
        let nanos: i64 = remaining * (Units::Nano.per_second() / self.per_second());
        utc_timestamp(seconds, nanos as u32)
    }
}

/// An epoch as it was read: the unit inferred for it, and the date and time,
/// in UTC, that it stands for in that unit.
#[derive(Clone, Copy, Debug, PartialEq, Eq)]
pub struct ParsedTime {
    pub unit: Units,
    pub dt: NaiveDateTime,
}

impl ParsedTime {
    /// Whether the date and time is that of `secs` whole seconds and a
    /// normalized remainder of `nanos` nanoseconds, within the calendar.
    pub open spec fn stands_for(self, secs: int, nanos: int) -> bool {
        &&& MIN_TIMESTAMP <= secs <= MAX_TIMESTAMP
        &&& 0 <= nanos <= 999_999_999
        &&& self.dt == utc_instant(secs, nanos)
    }

    /// Whether the date and time is that of some count of whole seconds with
    /// a normalized nanosecond remainder. It holds of every value that this
    /// library hands out.
    pub open spec fn well_formed(self) -> bool {
        exists|secs: int, nanos: int| #[trigger] self.stands_for(secs, nanos)
    }
}

/// What `raw` ticks are read as: the unit that the magnitude of `raw` gives,
/// and the instant that lies the whole seconds of `raw`, and then its
/// nanosecond remainder, after the epoch.
pub open spec fn parsed_time_of(raw: int) -> ParsedTime {
    let unit = classify_spec(raw);
    ParsedTime { unit, dt: utc_instant(unit.whole_seconds(raw), unit.subsec_nanos(raw)) }
}

/// Every epoch from [`MIN_TIMESTAMP`] up can be turned into a date in the
/// unit that its magnitude gives, and its reading is well formed. From zero
/// up its whole seconds stay below [`SECONDS_LIMIT`], whatever that unit is;
/// below zero it is read as that many whole seconds.
pub proof fn lemma_classified_converts(raw: i64)
    requires
        MIN_TIMESTAMP <= raw,
    ensures
        classify_spec(raw as int).converts(raw as int),
        parsed_time_of(raw as int).well_formed(),
        raw >= 0 ==> (0 <= classify_spec(raw as int).whole_seconds(raw as int) < SECONDS_LIMIT),
        raw < 0 ==> parsed_time_of(raw as int) == (ParsedTime {
            unit: Units::Seconds,
            dt: utc_instant(raw as int, 0),
        }),
{
    let unit = classify_spec(raw as int);
    lemma_split_exact(unit, raw as int);
    assert(parsed_time_of(raw as int).stands_for(
        unit.whole_seconds(raw as int),
        unit.subsec_nanos(raw as int),
    ));
}

/// An epoch from zero up and below [`SECONDS_LIMIT`] is read as seconds, and
/// is its own count of whole seconds, with no nanoseconds left over.
pub proof fn lemma_seconds_band(raw: int)
    requires
        0 <= raw < SECONDS_LIMIT,
    ensures
        classify_spec(raw) == Units::Seconds,
        classify_spec(raw).whole_seconds(raw) == raw,
        classify_spec(raw).subsec_nanos(raw) == 0,
        parsed_time_of(raw) == (ParsedTime { unit: Units::Seconds, dt: utc_instant(raw, 0) }),
{
    lemma_split_exact(Units::Seconds, raw);
}

/// Reads `i` as an epoch: infers its unit from its magnitude and turns it
/// into a date and time in that unit.
///
/// An epoch below zero is read as whole seconds before 1970. Epochs before
/// the first second of the calendar are left out.
pub fn int_to_datetime(i: i64) -> (parsed: ParsedTime)
    requires
        MIN_TIMESTAMP <= i,
    ensures
        parsed == parsed_time_of(i as int),
        parsed.well_formed(),
{
    let unit = classify(i);
    proof {
        lemma_classified_converts(i);
    }
    let dt = unit.to_date_time(i);
    ParsedTime { unit, dt }
}

/// What is made of a text: nothing unless it is a signed 64-bit integer in
/// decimal, see [`decimal_i64`], and nothing for a number below
/// [`MIN_TIMESTAMP`]; else the number read as an epoch.
pub open spec fn try_parse_spec(text: Seq<char>) -> Option<ParsedTime> {
    match decimal_i64(text) {
        Some(epoch) => if MIN_TIMESTAMP <= epoch {
            Some(parsed_time_of(epoch as int))
        } else {
            None
        },
        None => None,
    }
}

/// Text that is no number gives nothing. Text that holds a character other
/// than a decimal digit, a sign in the first place aside, is no number; and
/// nothing is made of text that is no number.
pub proof fn lemma_non_numeric(text: Seq<char>, at: int)
    requires
        0 <= at < text.len(),
        !is_digit(text[at]),
        at > 0 || !(text[0] == '-' || text[0] == '+'),
    ensures
        decimal_i64(text) is None,
        try_parse_spec(text) is None,
{
    if text[0] == '-' || text[0] == '+' {
        let digits = text.drop_first();
        assert(digits[at - 1] == text[at]);
        assert(!all_digits(digits));
    } else {
        assert(!all_digits(text));
    }
}

/// Reads `input` as an epoch, if it is one.
///
/// There is no result for text that is not a signed 64-bit integer in
/// decimal, and none for a number that lies before the first second of the
/// calendar.
pub fn try_parse(input: &str) -> (parsed: Option<ParsedTime>)
    ensures
        parsed == try_parse_spec(input@),
        parsed matches Some(time) ==> time.well_formed(),
{
    match parse_i64(input) {
        Some(epoch) => if epoch >= MIN_TIMESTAMP {
            Some(int_to_datetime(epoch))
        } else {
            None
        },
        None => None,
    }
}

} // verus!
