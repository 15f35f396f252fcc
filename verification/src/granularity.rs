//! Rounding resolutions and the flooring of times of day to them.

use vstd::prelude::*;
use vstd::arithmetic::div_mod::lemma_mod_multiples_basic;
use crate::time::TimeOfDay;

verus! {

/// The resolution at which times are recorded and durations are shown,
/// from the coarsest to the finest.
#[derive(Clone, Copy, Debug, PartialEq, Eq, Structural, Hash)]
pub enum Granularity {
    /// Whole hours.
    Relaxed,
    /// Half hours.
    Reasonable,
    /// Quarters of an hour.
    Detailed,
    /// Five minutes.
    Paranoid,
    /// Single minutes.
    Ocd,
    /// Single seconds.
    Scientific,
}

impl Granularity {
    /// Minutes between two neighbouring recordable times within an hour.
    pub open spec fn minute_step_spec(self) -> int {
        match self {
            Granularity::Relaxed => 60,
            Granularity::Reasonable => 30,
            Granularity::Detailed => 15,
            Granularity::Paranoid => 5,
            Granularity::Ocd => 1,
            Granularity::Scientific => 1,
        }
    }

    /// Seconds between two neighbouring recordable times within a minute:
    /// one under `Scientific`, a whole minute otherwise.
    pub open spec fn second_step_spec(self) -> int {
        match self {
            Granularity::Scientific => 1,
            _ => 60,
        }
    }

    /// Seconds between two neighbouring recordable times of a day.
    pub open spec fn step_seconds_spec(self) -> int {
        match self {
            Granularity::Relaxed => 3600,
            Granularity::Reasonable => 1800,
            Granularity::Detailed => 900,
            Granularity::Paranoid => 300,
            Granularity::Ocd => 60,
            Granularity::Scientific => 1,
        }
    }

    /// Position in the order from coarsest (0) to finest (5).
    pub open spec fn rank_spec(self) -> int {
        match self {
            Granularity::Relaxed => 0,
            Granularity::Reasonable => 1,
            Granularity::Detailed => 2,
            Granularity::Paranoid => 3,
            Granularity::Ocd => 4,
            Granularity::Scientific => 5,
        }
    }

    /// Whether `self` is at least as coarse as `other`.
    pub open spec fn coarser_or_equal(self, other: Granularity) -> bool {
        self.rank_spec() <= other.rank_spec()
    }

    /// Minutes between two neighbouring recordable times within an hour.
    pub fn minute_step(self) -> (r: u32)
        ensures
            r == self.minute_step_spec(),
    {
        match self {
            Granularity::Relaxed => 60,
            Granularity::Reasonable => 30,
            Granularity::Detailed => 15,
            Granularity::Paranoid => 5,
            Granularity::Ocd => 1,
            Granularity::Scientific => 1,
        }
    }

    /// Seconds between two neighbouring recordable times within a minute.
    pub fn second_step(self) -> (r: u32)
        ensures
            r == self.second_step_spec(),
    {
        match self {
            Granularity::Scientific => 1,
            _ => 60,
        }
    }

    /// Seconds between two neighbouring recordable times of a day: the
    /// minute step times the second step.
    pub fn step_seconds(self) -> (r: u32)
        ensures
            r == self.step_seconds_spec(),
            r == self.minute_step_spec() * self.second_step_spec(),
    {
        match self {
            Granularity::Scientific => 1,
            _ => self.minute_step() * 60,
        }
    }

    /// Position in the order from coarsest (0) to finest (5).
    pub fn rank(self) -> (r: usize)
        ensures
            r == self.rank_spec(),
    {
        match self {
            Granularity::Relaxed => 0,
            Granularity::Reasonable => 1,
            Granularity::Detailed => 2,
            Granularity::Paranoid => 3,
            Granularity::Ocd => 4,
            Granularity::Scientific => 5,
        }
    }

    /// The name of the granularity with its step, as a picker shows it.
    pub open spec fn label_spec(self) -> Seq<char> {
        match self {
            Granularity::Relaxed => "Relaxed (1h)"@,
            Granularity::Reasonable => "Reasonable (30m)"@,
            Granularity::Detailed => "Detailed (15m)"@,
            Granularity::Paranoid => "Paranoid (5m)"@,
            Granularity::Ocd => "OCD (1m)"@,
            Granularity::Scientific => "Scientific (1s)"@,
        }
    }

    /// The name of the granularity with its step, as a picker shows it.
    pub fn label(self) -> (r: &'static str)
        ensures
            r@ == self.label_spec(),
    {
        match self {
            Granularity::Relaxed => "Relaxed (1h)",
            Granularity::Reasonable => "Reasonable (30m)",
            Granularity::Detailed => "Detailed (15m)",
            Granularity::Paranoid => "Paranoid (5m)",
            Granularity::Ocd => "OCD (1m)",
            Granularity::Scientific => "Scientific (1s)",
        }
    }

    /// The granularity at a position of the order, if there is one.
    pub fn from_rank(rank: usize) -> (r: Option<Granularity>)
        ensures
            rank < 6 ==> r is Some && r->0.rank_spec() == rank,
            rank >= 6 ==> r is None,
    {
        match rank {
            0 => Some(Granularity::Relaxed),
            1 => Some(Granularity::Reasonable),
            2 => Some(Granularity::Detailed),
            3 => Some(Granularity::Paranoid),
            4 => Some(Granularity::Ocd),
            5 => Some(Granularity::Scientific),
            _ => None,
        }
    }
}

impl Default for Granularity {
    /// A model that was never stored starts at quarter-hour resolution.
    fn default() -> (r: Granularity)
        ensures
            r == Granularity::Detailed,
    {
        Granularity::Detailed
    }
}

/// The step of a coarser granularity is a whole number of steps of a finer
/// one, and no shorter.
pub proof fn lemma_steps_nest(fine: Granularity, coarse: Granularity)
    requires
        coarse.coarser_or_equal(fine),
    ensures
        coarse.step_seconds_spec() >= fine.step_seconds_spec(),
        coarse.step_seconds_spec() % fine.step_seconds_spec() == 0,
        86_400int % coarse.step_seconds_spec() == 0,
        coarse.step_seconds_spec() == coarse.minute_step_spec() * coarse.second_step_spec(),
{
}

/// The minute that `minute` is floored to under `granularity`.
pub open spec fn floor_minute(minute: u32, granularity: Granularity) -> u32 {
    match granularity {
        Granularity::Relaxed => 0,
        _ => ((minute as int / granularity.minute_step_spec())
            * granularity.minute_step_spec()) as u32,
    }
}

/// A time floored to a granularity: the hour stays, the minute goes down to
/// a multiple of the minute step, the seconds survive only under
/// `Scientific`, and nothing below a second is kept.
pub open spec fn normalize_spec(it: TimeOfDay, granularity: Granularity) -> TimeOfDay {
    TimeOfDay {
        hour: it.hour,
        minute: floor_minute(it.minute, granularity),
        second: if granularity == Granularity::Scientific { it.second } else { 0 },
        nanosecond: 0,
    }
}

/// Whether a time is one that flooring to `granularity` leaves as it is.
pub open spec fn is_normalized(it: TimeOfDay, granularity: Granularity) -> bool {
    normalize_spec(it, granularity) == it
}

/// The floored minute, granularity by granularity, with its bounds.
pub proof fn lemma_floor_minute(minute: u32, granularity: Granularity)
    ensures
        floor_minute(minute, granularity) == match granularity {
            Granularity::Relaxed => 0,
            Granularity::Reasonable => minute as int / 30 * 30,
            Granularity::Detailed => minute as int / 15 * 15,
            Granularity::Paranoid => minute as int / 5 * 5,
            Granularity::Ocd => minute as int,
            Granularity::Scientific => minute as int,
        },
        floor_minute(minute, granularity) <= minute,
        floor_minute(floor_minute(minute, granularity), granularity) == floor_minute(
            minute,
            granularity,
        ),
        minute < 60 ==> minute - floor_minute(minute, granularity)
            < granularity.minute_step_spec(),
        minute < 60 ==> floor_minute(minute, granularity) as int
            % granularity.minute_step_spec() == 0,
{
    match granularity {
        Granularity::Relaxed => {},
        Granularity::Reasonable => {
            assert(floor_minute(minute, granularity) == minute as int / 30 * 30);
        },
        Granularity::Detailed => {
            assert(floor_minute(minute, granularity) == minute as int / 15 * 15);
        },
        Granularity::Paranoid => {
            assert(floor_minute(minute, granularity) == minute as int / 5 * 5);
        },
        Granularity::Ocd => {
            assert(floor_minute(minute, granularity) == minute as int / 1 * 1);
        },
        Granularity::Scientific => {
            assert(floor_minute(minute, granularity) == minute as int / 1 * 1);
        },
    }
}

/// Floors a time of day to a granularity. The result never lies after the
/// input and never in another hour.
pub fn normalize(it: TimeOfDay, granularity: Granularity) -> (r: TimeOfDay)
    ensures
        r == normalize_spec(it, granularity),
        is_normalized(r, granularity),
        r.hour == it.hour,
        r.minute <= it.minute,
        r.nanosecond == 0,
        it.is_valid() ==> r.is_valid(),
{
    proof {
        lemma_floor_minute(it.minute, granularity);
    }
    let step: u32 = granularity.minute_step();
    let minute: u32 = match granularity {
        Granularity::Relaxed => 0,
        _ => (it.minute / step) * step,
    };
    let second: u32 = match granularity {
        Granularity::Scientific => it.second,
        _ => 0,
    };
    TimeOfDay { hour: it.hour, minute, second, nanosecond: 0 }
}

/// Flooring twice to the same granularity is flooring once.
pub proof fn lemma_normalize_idempotent(it: TimeOfDay, granularity: Granularity)
    ensures
        normalize_spec(normalize_spec(it, granularity), granularity) == normalize_spec(
            it,
            granularity,
        ),
{
    lemma_floor_minute(it.minute, granularity);
}

/// Flooring never moves the minute up, and moves it down by less than one
/// minute step.
pub proof fn lemma_normalize_minute_bounds(it: TimeOfDay, granularity: Granularity)
    ensures
        normalize_spec(it, granularity).minute <= it.minute,
        it.minute < 60 ==> it.minute - normalize_spec(it, granularity).minute
            < granularity.minute_step_spec(),
        it.minute < 60 ==> normalize_spec(it, granularity).minute as int
            % granularity.minute_step_spec() == 0,
{
    lemma_floor_minute(it.minute, granularity);
}

/// Flooring keeps a valid time valid.
pub proof fn lemma_normalize_valid(it: TimeOfDay, granularity: Granularity)
    requires
        it.is_valid(),
    ensures
        normalize_spec(it, granularity).is_valid(),
{
    lemma_floor_minute(it.minute, granularity);
}

/// Among valid times, the floored ones are exactly those on a multiple of
/// the minute step, on a whole second, and on a whole minute unless the
/// granularity is `Scientific`.
pub proof fn lemma_is_normalized_iff(it: TimeOfDay, granularity: Granularity)
    requires
        it.is_valid(),
    ensures
        is_normalized(it, granularity) <==> {
            &&& it.minute as int % granularity.minute_step_spec() == 0
            &&& it.second as int % granularity.second_step_spec() == 0
            &&& it.nanosecond == 0
        },
{
    lemma_floor_minute(it.minute, granularity);
    match granularity {
        Granularity::Relaxed => {},
        Granularity::Reasonable => {},
        Granularity::Detailed => {},
        Granularity::Paranoid => {},
        Granularity::Ocd => {},
        Granularity::Scientific => {},
    }
}

/// A floored valid time lies a whole number of steps after midnight.
pub proof fn lemma_normalized_on_step(it: TimeOfDay, granularity: Granularity)
    requires
        it.is_valid(),
        is_normalized(it, granularity),
    ensures
        it.seconds_from_midnight_spec() % granularity.step_seconds_spec() == 0,
{
    lemma_is_normalized_iff(it, granularity);
    let seconds = it.seconds_from_midnight_spec();
    match granularity {
        Granularity::Relaxed => {
            assert(seconds == it.hour * 3600);
            lemma_mod_multiples_basic(it.hour as int, 3600);
        },
        Granularity::Reasonable => {
            assert(seconds == (2 * it.hour + it.minute as int / 30) * 1800);
            lemma_mod_multiples_basic(2 * it.hour + it.minute as int / 30, 1800);
        },
        Granularity::Detailed => {
            assert(seconds == (4 * it.hour + it.minute as int / 15) * 900);
            lemma_mod_multiples_basic(4 * it.hour + it.minute as int / 15, 900);
        },
        Granularity::Paranoid => {
            assert(seconds == (12 * it.hour + it.minute as int / 5) * 300);
            lemma_mod_multiples_basic(12 * it.hour + it.minute as int / 5, 300);
        },
        Granularity::Ocd => {
            assert(seconds == (60 * it.hour + it.minute) * 60);
            lemma_mod_multiples_basic(60 * it.hour + it.minute, 60);
        },
        Granularity::Scientific => {},
    }
}

/// Flooring to a finer granularity first does not change what flooring to
/// a coarser one gives.
pub proof fn lemma_normalize_coarsens(it: TimeOfDay, fine: Granularity, coarse: Granularity)
    requires
        coarse.coarser_or_equal(fine),
    ensures
        normalize_spec(normalize_spec(it, fine), coarse) == normalize_spec(it, coarse),
{
    let minute = it.minute as int;
    lemma_floor_minute(it.minute, fine);
    lemma_floor_minute(it.minute, coarse);
    lemma_floor_minute(floor_minute(it.minute, fine), coarse);
    assert((minute / 5 * 5) / 15 * 15 == minute / 15 * 15);
    assert((minute / 5 * 5) / 30 * 30 == minute / 30 * 30);
    assert((minute / 15 * 15) / 30 * 30 == minute / 30 * 30);
    assert(floor_minute(floor_minute(it.minute, fine), coarse) == floor_minute(it.minute, coarse));
}

/// A time floored to a coarser granularity is left as it is by flooring to
/// a finer one.
pub proof fn lemma_normalize_refines(it: TimeOfDay, fine: Granularity, coarse: Granularity)
    requires
        coarse.coarser_or_equal(fine),
    ensures
        normalize_spec(normalize_spec(it, coarse), fine) == normalize_spec(it, coarse),
{
    let minute = it.minute as int;
    lemma_floor_minute(it.minute, coarse);
    lemma_floor_minute(floor_minute(it.minute, coarse), fine);
    assert((minute / 15 * 15) / 5 * 5 == minute / 15 * 15);
    assert((minute / 30 * 30) / 5 * 5 == minute / 30 * 30);
    assert((minute / 30 * 30) / 15 * 15 == minute / 30 * 30);
    assert(floor_minute(floor_minute(it.minute, coarse), fine) == floor_minute(it.minute, coarse));
}

} // verus!
