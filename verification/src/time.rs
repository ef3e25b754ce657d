//! Points in time and lengths of time, as plain numbers.

use vstd::prelude::*;

verus! {

/// The number of nanoseconds in a second.
pub const NANOS_PER_SEC: u32 = 1_000_000_000;

/// The first second that a calendar date can name, counted from the Unix epoch: the start of the
/// year -262143.
pub const FIRST_SECOND: i64 = -8_334_601_228_800;

/// The last second that a calendar date can name: the end of the year 262142.
pub const LAST_SECOND: i64 = 8_210_266_876_799;

/// The mathematical value of a [`Moment`]: whole seconds since the Unix epoch, and nanoseconds
/// into that second. A second that is followed by a leap second lasts two thousand million
/// nanoseconds here; the second half of them is the leap second.
pub struct Stamp {
    pub secs: int,
    pub nanos: int,
}

impl Stamp {
    /// The calendar can hold this point in time.
    pub open spec fn in_range(self) -> bool {
        &&& FIRST_SECOND <= self.secs <= LAST_SECOND
        &&& 0 <= self.nanos < 2 * NANOS_PER_SEC
        &&& self.is_leap() ==> self.secs % 60 == 59
    }

    /// The point lies within a leap second.
    pub open spec fn is_leap(self) -> bool {
        self.nanos >= NANOS_PER_SEC
    }

    /// The point comes strictly after `other`.
    pub open spec fn is_after(self, other: Stamp) -> bool {
        self.secs > other.secs || (self.secs == other.secs && self.nanos > other.nanos)
    }

    /// The second of the (UTC) day.
    pub open spec fn second_of_day(self) -> int {
        self.secs % 86_400
    }

    /// The point `nanos` nanoseconds later. Within a leap second the time stays in that leap
    /// second as long as it lasts; from its end on it is counted as any other time.
    pub open spec fn plus(self, nanos: nat) -> Stamp {
        if self.is_leap() && self.nanos + nanos < 2 * NANOS_PER_SEC {
            Stamp { secs: self.secs, nanos: self.nanos + nanos }
        } else {
            let fraction = if self.is_leap() { self.nanos - NANOS_PER_SEC } else { self.nanos };
            let total = self.secs * NANOS_PER_SEC + fraction + nanos;
            Stamp { secs: total / (NANOS_PER_SEC as int), nanos: total % (NANOS_PER_SEC as int) }
        }
    }

    /// The nanoseconds from `earlier` to this point, negative if it lies before `earlier`. The leap
    /// second that one of the two lies in counts for a second of its own between them if that
    /// point has the earlier time of day.
    pub open spec fn nanos_since(self, earlier: Stamp) -> int {
        let leap = if self.second_of_day() > earlier.second_of_day() && earlier.is_leap() {
            1int
        } else if self.second_of_day() < earlier.second_of_day() && self.is_leap() {
            -1int
        } else {
            0int
        };
        (self.secs - earlier.secs + leap) * NANOS_PER_SEC + self.nanos - earlier.nanos
    }
}

/// A point in time that the calendar can hold.
#[derive(Clone, Copy, Debug, PartialEq, Eq)]
pub struct Moment {
    secs: i64,
    nanos: u32,
}

impl View for Moment {
    type V = Stamp;

    closed spec fn view(&self) -> Stamp {
        Stamp { secs: self.secs as int, nanos: self.nanos as int }
    }
}

impl Moment {
    /// The calendar holds every moment.
    #[verifier::type_invariant]
    pub open spec fn valid(self) -> bool {
        self@.in_range()
    }

    /// The point `nanos` nanoseconds into the second `secs` after the Unix epoch, if there is one
    /// in the calendar.
    pub fn new(secs: i64, nanos: u32) -> (moment: Option<Moment>)
        ensures
            moment is Some <==> (Stamp { secs: secs as int, nanos: nanos as int }).in_range(),
            moment matches Some(m) ==> m@ == (Stamp { secs: secs as int, nanos: nanos as int }),
    {
        if secs < FIRST_SECOND || secs > LAST_SECOND || nanos >= 2_000_000_000 {
            return None;
        }
        if nanos >= NANOS_PER_SEC {
            // The first second of the calendar starts a minute.
            let since_first: u64 = (secs - FIRST_SECOND) as u64;
            if since_first % 60 != 59 {
                return None;
            }
        }
        Some(Moment { secs, nanos })
    }

    /// Whole seconds since the Unix epoch.
    pub fn secs(&self) -> (secs: i64)
        ensures
            secs == self@.secs,
    {
        self.secs
    }

    /// Nanoseconds into the second.
    pub fn nanos(&self) -> (nanos: u32)
        ensures
            nanos == self@.nanos,
    {
        self.nanos
    }

    /// The point comes strictly after `other`.
    pub fn is_after(&self, other: &Moment) -> (after: bool)
        ensures
            after == self@.is_after(other@),
    {
        self.secs > other.secs || (self.secs == other.secs && self.nanos > other.nanos)
    }

    /// The two are the same point in time.
    pub fn same(&self, other: &Moment) -> (same: bool)
        ensures
            same == (self@ == other@),
    {
        self.secs == other.secs && self.nanos == other.nanos
    }

    /// The point in time now, from `chrono::Local::now`, which reads the clock of the machine.
    ///
    /// Trusted: the clock never reads before the Unix epoch nor inside a leap second. What time
    /// it is remains open. A clock set before the epoch makes the call panic.
    #[verifier::external_body]
    pub(crate) fn now() -> (now: Moment)
        ensures
            now@.secs >= 0,
            !now@.is_leap(),
    {
        let now = chrono::Local::now();
        Moment { secs: now.timestamp(), nanos: now.timestamp_subsec_nanos() }
    }

    /// The point `period` later, if the calendar holds it. From `chrono`'s
    /// `DateTime::checked_add_signed`, for a `TimeDelta` that `TimeDelta::from_std` makes.
    ///
    /// Trusted: the sum is [`Stamp::plus`], and there is none exactly if that lies outside of the
    /// calendar (a length too long for a `TimeDelta` always leads out of it).
    #[verifier::external_body]
    pub(crate) fn checked_add(&self, period: &Period) -> (sum: Option<Moment>)
        ensures
            sum is Some <==> self@.plus(period@).in_range(),
            sum matches Some(m) ==> m@ == self@.plus(period@),
    {
        let start = chrono::DateTime::from_timestamp(self.secs, self.nanos)?;
        let length = core::time::Duration::new(period.secs, period.nanos);
        let delta = chrono::TimeDelta::from_std(length).ok()?;
        let end = start.checked_add_signed(delta)?;
        Some(Moment { secs: end.timestamp(), nanos: end.timestamp_subsec_nanos() })
    }

    /// The time from `earlier` to this point. From `chrono`'s `DateTime::signed_duration_since`.
    ///
    /// Trusted: it is [`Stamp::nanos_since`], in seconds and nanoseconds of one sign.
    #[verifier::external_body]
    pub(crate) fn signed_duration_since(&self, earlier: &Moment) -> (span: Span)
        ensures
            span@ == self@.nanos_since(earlier@),
    {
        let end = chrono::DateTime::from_timestamp(self.secs, self.nanos).unwrap();
        let start = chrono::DateTime::from_timestamp(earlier.secs, earlier.nanos).unwrap();
        let delta = end.signed_duration_since(start);
        Span { secs: delta.num_seconds(), nanos: delta.subsec_nanos() }
    }
}

/// A length of time, never negative. Its view is the number of nanoseconds.
#[derive(Clone, Copy, Debug, PartialEq, Eq)]
pub struct Period {
    secs: u64,
    nanos: u32,
}

impl View for Period {
    type V = nat;

    closed spec fn view(&self) -> nat {
        (self.secs * NANOS_PER_SEC + self.nanos) as nat
    }
}

impl Period {
    #[verifier::type_invariant]
    spec fn valid(self) -> bool {
        self.nanos < NANOS_PER_SEC
    }

    /// `secs` seconds and `nanos` nanoseconds, if the latter are less than a second.
    pub fn new(secs: u64, nanos: u32) -> (period: Option<Period>)
        ensures
            period is Some <==> nanos < NANOS_PER_SEC,
            period matches Some(p) ==> p@ == secs * NANOS_PER_SEC + nanos,
    {
        if nanos < NANOS_PER_SEC {
            Some(Period { secs, nanos })
        } else {
            None
        }
    }

    /// `secs` seconds.
    pub fn from_secs(secs: u64) -> (period: Period)
        ensures
            period@ == secs * NANOS_PER_SEC,
    {
        Period { secs, nanos: 0 }
    }

    /// The whole seconds of this length.
    pub fn as_secs(&self) -> (secs: u64)
        ensures
            secs == self@ / (NANOS_PER_SEC as nat),
    {
        proof {
            use_type_invariant(*self);
        }
        self.secs
    }

    /// The nanoseconds beyond the whole seconds.
    pub fn subsec_nanos(&self) -> (nanos: u32)
        ensures
            nanos == self@ % (NANOS_PER_SEC as nat),
    {
        proof {
            use_type_invariant(*self);
        }
        self.nanos
    }

    /// The whole milliseconds of this length.
    pub fn as_millis(&self) -> (millis: u128)
        ensures
            millis == self@ / 1_000_000,
    {
        proof {
            use_type_invariant(*self);
        }
        self.secs as u128 * 1_000 + (self.nanos / 1_000_000) as u128
    }
}

/// The time from one point to another, negative if the second lies before the first. Its view is
/// the number of nanoseconds.
#[derive(Clone, Copy, Debug, PartialEq, Eq)]
pub struct Span {
    secs: i64,
    nanos: i32,
}

impl View for Span {
    type V = int;

    closed spec fn view(&self) -> int {
        self.secs * NANOS_PER_SEC + self.nanos
    }
}

/// The whole seconds in `nanos` nanoseconds, rounded towards zero.
pub open spec fn whole_seconds(nanos: int) -> int {
    if nanos >= 0 {
        nanos / (NANOS_PER_SEC as int)
    } else {
        -((-nanos) / (NANOS_PER_SEC as int))
    }
}

impl Span {
    #[verifier::type_invariant]
    spec fn valid(self) -> bool {
        &&& -NANOS_PER_SEC < self.nanos < NANOS_PER_SEC
        &&& self.secs > 0 ==> self.nanos >= 0
        &&& self.secs < 0 ==> self.nanos <= 0
    }

    /// The whole seconds of this span, rounded towards zero.
    pub fn num_seconds(&self) -> (secs: i64)
        ensures
            secs == whole_seconds(self@),
    {
        proof {
            use_type_invariant(*self);
        }
        self.secs
    }

    /// This span as a length of time, if it is not negative.
    pub fn to_std(&self) -> (period: Option<Period>)
        ensures
            period is Some <==> self@ >= 0,
            period matches Some(p) ==> p@ == self@,
    {
        proof {
            use_type_invariant(*self);
        }
        if self.secs < 0 || self.nanos < 0 {
            None
        } else {
            Some(Period { secs: self.secs as u64, nanos: self.nanos as u32 })
        }
    }
}

/// The calendar goes from the start of its first second to the end of its last, and knows a leap
/// second only at the end of a minute.
pub proof fn law_calendar_bounds(point: Stamp)
    ensures
        point.in_range() <==> {
            &&& -8_334_601_228_800 <= point.secs <= 8_210_266_876_799
            &&& 0 <= point.nanos < 2_000_000_000
            &&& point.nanos < 1_000_000_000 || point.secs % 60 == 59
        },
{
}

/// Points in time are in order: of two different ones exactly one comes after the other, and in
/// the calendar the later one is the one with more nanoseconds before it, a leap second included.
pub proof fn law_points_are_ordered(first: Stamp, second: Stamp)
    requires
        first.in_range(),
        second.in_range(),
    ensures
        first.is_after(second) ==> !second.is_after(first),
        !first.is_after(second) && !second.is_after(first) ==> first == second,
        first.is_after(second) <==> first.secs * 2_000_000_000 + first.nanos > second.secs
            * 2_000_000_000 + second.nanos,
{
}

/// A time that is added is added in full. From a point outside of a leap second the nanoseconds
/// since the epoch grow by it, and the result lies outside of one too.
pub proof fn law_plus_adds_nanoseconds(start: Stamp, nanos: nat)
    requires
        0 <= start.nanos < 1_000_000_000,
    ensures
        ({
            let end = start.plus(nanos);
            &&& 0 <= end.nanos < 1_000_000_000
            &&& end.secs * 1_000_000_000 + end.nanos == start.secs * 1_000_000_000 + start.nanos
                + nanos
        }),
{
}

/// From within a leap second the rest of it is used up first: up to its end the point stays in it,
/// and from then on it lies as long after the end as there is time beyond the rest.
pub proof fn law_plus_uses_up_a_leap_second(start: Stamp, nanos: nat)
    requires
        1_000_000_000 <= start.nanos < 2_000_000_000,
    ensures
        ({
            let end = start.plus(nanos);
            let rest = 2_000_000_000 - start.nanos;
            if nanos < rest {
                end.secs == start.secs && end.nanos == start.nanos + nanos
            } else {
                &&& 0 <= end.nanos < 1_000_000_000
                &&& end.secs * 1_000_000_000 + end.nanos == (start.secs + 1) * 1_000_000_000
                    + nanos - rest
            }
        }),
{
}

/// The time between two points is the nanoseconds that separate them; from one to the other and
/// back is the same but for the sign. Both hold outside of leap seconds.
pub proof fn law_time_between(first: Stamp, second: Stamp)
    requires
        0 <= first.nanos < 1_000_000_000,
        0 <= second.nanos < 1_000_000_000,
    ensures
        second.nanos_since(first) == (second.secs * 1_000_000_000 + second.nanos) - (first.secs
            * 1_000_000_000 + first.nanos),
        first.nanos_since(second) == -second.nanos_since(first),
{
}

/// The whole seconds of a time differ from it by less than a second, and lie towards zero.
pub proof fn law_whole_seconds_round_towards_zero(nanos: int)
    ensures
        nanos >= 0 ==> 0 <= nanos - whole_seconds(nanos) * 1_000_000_000 < 1_000_000_000,
        nanos <= 0 ==> 0 <= whole_seconds(nanos) * 1_000_000_000 - nanos < 1_000_000_000,
{
}

} // verus!
