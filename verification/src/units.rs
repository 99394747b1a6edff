//! The four units an epoch may be counted in, and the arithmetic that splits
//! a tick count into whole seconds and a nanosecond remainder.

use vstd::prelude::*;

verus! {

/// Nanoseconds in one second.
pub const NANOS_PER_SECOND: i64 = 1_000_000_000;

/// Tick counts below this are read as seconds.
pub const SECONDS_LIMIT: i64 = 10_000_000_000;

/// Tick counts below this, and not below [`SECONDS_LIMIT`], are read as
/// milliseconds.
pub const MILLIS_LIMIT: i64 = 10_000_000_000_000;

/// Tick counts below this, and not below [`MILLIS_LIMIT`], are read as
/// microseconds; all others as nanoseconds.
pub const MICROS_LIMIT: i64 = 10_000_000_000_000_000;

/// The granularity of an epoch value.
#[derive(Clone, Copy, Debug, PartialEq, Eq, Structural)]
pub enum Units {
    Seconds,
    Milli,
    Micro,
    Nano,
}

impl Units {
    /// Ticks of this unit in one second.
    pub open spec fn ticks_per_second(self) -> int {
        match self {
            Units::Seconds => 1,
            Units::Milli => 1_000,
            Units::Micro => 1_000_000,
            Units::Nano => 1_000_000_000,
        }
    }

    /// Nanoseconds in one tick of this unit: those of a second, shared out
    /// among the ticks of a second (see [`lemma_split_exact`]).
    pub open spec fn nanos_per_tick(self) -> int {
        match self {
            Units::Seconds => 1_000_000_000,
            Units::Milli => 1_000_000,
            Units::Micro => 1_000,
            Units::Nano => 1,
        }
    }

    /// The whole seconds in `raw` ticks: the quotient of `raw` by the ticks
    /// per second, rounded toward zero.
    pub open spec fn whole_seconds(self, raw: int) -> int {
        if raw >= 0 {
            raw / self.ticks_per_second()
        } else {
            -((-raw) / self.ticks_per_second())
        }
    }

    /// The ticks of `raw` that the whole seconds leave over.
    pub open spec fn remainder_ticks(self, raw: int) -> int {
        raw - self.whole_seconds(raw) * self.ticks_per_second()
    }

    /// The nanosecond remainder of `raw`: its left-over ticks, counted in
    /// nanoseconds.
    pub open spec fn subsec_nanos(self, raw: int) -> int {
        self.remainder_ticks(raw) * self.nanos_per_tick()
    }

    /// The tick count that `secs` whole seconds and `nanos` nanoseconds
    /// stand for in this unit: what is read back from a split.
    pub open spec fn ticks_of(self, secs: int, nanos: int) -> int {
        secs * self.ticks_per_second() + nanos / self.nanos_per_tick()
    }

    /// The unit's name as it is shown to a user.
    pub open spec fn label(self) -> Seq<char> {
        match self {
            Units::Seconds => "seconds"@,
            Units::Milli => "milli-seconds"@,
            Units::Micro => "micro-seconds"@,
            Units::Nano => "nano-seconds"@,
        }
    }

    /// Ticks of this unit in one second.
    pub fn per_second(&self) -> (scale: i64)
        ensures
            scale == self.ticks_per_second(),
    {
        match self {
            Units::Seconds => 1,
            Units::Milli => 1_000,
            Units::Micro => 1_000_000,
            Units::Nano => 1_000_000_000,
        }
    }

    /// The unit's name as it is shown to a user.
    pub fn name(&self) -> (text: &'static str)
        ensures
            text@ == self.label(),
    {
        match self {
            Units::Seconds => "seconds",
            Units::Milli => "milli-seconds",
            Units::Micro => "micro-seconds",
            Units::Nano => "nano-seconds",
        }
    }
}

/// The unit that a tick count of this magnitude is read in: the first band,
/// in ascending order, whose exclusive upper limit lies above `raw`.
pub open spec fn classify_spec(raw: int) -> Units {
    if raw < SECONDS_LIMIT {
        Units::Seconds
    } else if raw < MILLIS_LIMIT {
        Units::Milli
    } else if raw < MICROS_LIMIT {
        Units::Micro
    } else {
        Units::Nano
    }
}

/// Infers the unit of `raw` from its magnitude alone.
pub fn classify(raw: i64) -> (unit: Units)
    ensures
        unit == classify_spec(raw as int),
{
    if raw < SECONDS_LIMIT {
        Units::Seconds
    } else if raw < MILLIS_LIMIT {
        Units::Milli
    } else if raw < MICROS_LIMIT {
        Units::Micro
    } else {
        Units::Nano
    }
}

/// The bands do not overlap and leave no gap: each limit is the exclusive
/// upper end of the coarser unit's band, so a count that equals a limit is
/// read in the next finer unit.
pub proof fn lemma_bands(raw: int)
    ensures
        classify_spec(raw) == Units::Seconds <==> (raw < SECONDS_LIMIT),
        classify_spec(raw) == Units::Milli <==> (SECONDS_LIMIT <= raw < MILLIS_LIMIT),
        classify_spec(raw) == Units::Micro <==> (MILLIS_LIMIT <= raw < MICROS_LIMIT),
        classify_spec(raw) == Units::Nano <==> (MICROS_LIMIT <= raw),
{
}

/// The split is exact. The whole seconds and the left-over ticks add up to
/// `raw` again, and the left-over ticks are fewer than one second's worth
/// and have the sign of `raw`. The ticks of a second share its nanoseconds
/// out evenly, so the nanosecond remainder is less than a second, has the
/// sign of the left-over ticks, and counts back to them.
pub proof fn lemma_split_exact(unit: Units, raw: int)
    ensures
        unit.nanos_per_tick() * unit.ticks_per_second() == NANOS_PER_SECOND,
        unit.nanos_per_tick() == (NANOS_PER_SECOND as int) / unit.ticks_per_second(),
        unit.whole_seconds(raw) * unit.ticks_per_second() + unit.remainder_ticks(raw) == raw,
        raw >= 0 ==> (0 <= unit.remainder_ticks(raw) < unit.ticks_per_second()),
        raw <= 0 ==> (-unit.ticks_per_second() < unit.remainder_ticks(raw) <= 0),
        -(NANOS_PER_SECOND as int) < unit.subsec_nanos(raw) < NANOS_PER_SECOND,
        unit.subsec_nanos(raw) >= 0 <==> unit.remainder_ticks(raw) >= 0,
        unit.subsec_nanos(raw) <= 0 <==> unit.remainder_ticks(raw) <= 0,
        unit.subsec_nanos(raw) / unit.nanos_per_tick() == unit.remainder_ticks(raw),
{
    let whole = unit.whole_seconds(raw);
    let left = unit.remainder_ticks(raw);
    let nanos = unit.subsec_nanos(raw);
    match unit {
        Units::Seconds => {
            assert(left == raw - whole * 1);
            assert(nanos == left * 1_000_000_000);
            assert(nanos / 1_000_000_000 == left);
        },
        Units::Milli => {
            assert(left == raw - whole * 1_000);
            assert(nanos == left * 1_000_000);
            assert(nanos / 1_000_000 == left);
        },
        Units::Micro => {
            assert(left == raw - whole * 1_000_000);
            assert(nanos == left * 1_000);
            assert(nanos / 1_000 == left);
        },
        Units::Nano => {
            assert(left == raw - whole * 1_000_000_000);
            assert(nanos == left * 1);
            assert(nanos / 1 == left);
        },
    }
}

/// For an epoch that is not negative the nanosecond remainder is normalized:
/// it lies from 0 to 999,999,999, in every unit.
pub proof fn lemma_nanos_normalized(unit: Units, raw: int)
    requires
        0 <= raw,
    ensures
        0 <= unit.subsec_nanos(raw) <= 999_999_999,
{
    lemma_split_exact(unit, raw);
}

/// Nothing is lost in the split: the whole seconds, scaled up again, and the
/// nanosecond remainder, counted in ticks again, give back `raw`, in every
/// unit.
pub proof fn lemma_round_trip(unit: Units, raw: int)
    ensures
        unit.ticks_of(unit.whole_seconds(raw), unit.subsec_nanos(raw)) == raw,
{
    lemma_split_exact(unit, raw);
}

} // verus!
