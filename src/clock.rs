//! Instants and durations as nanosecond counts, and the arithmetic the
//! timer needs on them.
use vstd::prelude::*;
use vstd::arithmetic::div_mod::{
    lemma_fundamental_div_mod, lemma_fundamental_div_mod_converse_div, lemma_mod_multiples_vanish,
};

verus! {

pub const NANOS_PER_MILLISECOND: i128 = 1_000_000;

pub const NANOS_PER_SECOND: i128 = 1_000_000_000;

pub const NANOS_PER_MINUTE: i128 = 60_000_000_000;

pub const NANOS_PER_HOUR: i128 = 3_600_000_000_000;

pub const NANOS_PER_DAY: i128 = 86_400_000_000_000;

/// Largest magnitude of a stored instant or duration, in nanoseconds
/// (about nineteen billion years). Values beyond it are clamped.
pub const LIMIT: i128 = 600_000_000_000_000_000_000_000_000;

/// A reading of the local clock: nanoseconds since the Unix epoch, and the
/// local offset from UTC in seconds.
pub struct Now {
    pub unix_nanos: i128,
    pub utc_offset_seconds: i32,
}

impl Now {
    pub open spec fn wf(&self) -> bool {
        -LIMIT <= self.unix_nanos <= LIMIT
    }
}

/// `x` clamped to the range of stored instants and durations.
pub open spec fn bound(x: int) -> int {
    if x > LIMIT {
        LIMIT as int
    } else if x < -LIMIT {
        -LIMIT
    } else {
        x
    }
}

pub open spec fn in_range(x: int) -> bool {
    -LIMIT <= x <= LIMIT
}

/// Whole minutes of a duration, rounded down, plus one: the minute count
/// shown while a timer runs.
pub open spec fn minutes_shown(d: int) -> int {
    d / (NANOS_PER_MINUTE as int) + 1
}

/// The local wall-clock hour (0 to 23) of an instant.
pub open spec fn local_hour(t: int, offset_seconds: int) -> int {
    ((t + offset_seconds * NANOS_PER_SECOND) % (NANOS_PER_DAY as int)) / (NANOS_PER_HOUR as int)
}

/// The local wall-clock minute (0 to 59) of an instant.
pub open spec fn local_minute(t: int, offset_seconds: int) -> int {
    (((t + offset_seconds * NANOS_PER_SECOND) % (NANOS_PER_DAY as int)) / (NANOS_PER_MINUTE as int))
        % 60
}

/// `x` clamped into range; `x` itself may be up to twenty times out of it.
pub fn clamp(x: i128) -> (r: i128)
    requires
        -20 * LIMIT <= x <= 20 * LIMIT,
    ensures
        r == bound(x as int),
        in_range(r as int),
{
    if x > LIMIT {
        LIMIT
    } else if x < -LIMIT {
        -LIMIT
    } else {
        x
    }
}

/// `minutes_shown` of a duration that may be up to twice out of range.
pub fn minutes_left(d: i128) -> (r: i128)
    requires
        -2 * LIMIT <= d <= 2 * LIMIT,
    ensures
        r == minutes_shown(d as int),
        -20_000_000_000_000_000 <= r <= 20_000_000_000_000_001,
{
    // 2 * LIMIT is a whole number of minutes: shift d to be non-negative
    let k: i128 = 20_000_000_000_000_000;
    let shifted: u128 = (d + k * NANOS_PER_MINUTE) as u128;
    let q: u128 = shifted / (NANOS_PER_MINUTE as u128);
    proof {
        let m = NANOS_PER_MINUTE as int;
        lemma_fundamental_div_mod(shifted as int, m);
        lemma_fundamental_div_mod_converse_div(d as int, m, q as int - k as int, (shifted as int) % m);
    }
    q as i128 - k + 1
}

/// The local hour and minute of an instant.
pub fn hour_and_minute(t: i128, offset_seconds: i32) -> (r: (u8, u8))
    requires
        in_range(t as int),
    ensures
        r.0 as int == local_hour(t as int, offset_seconds as int),
        r.1 as int == local_minute(t as int, offset_seconds as int),
        r.0 < 24,
        r.1 < 60,
{
    let local: i128 = t + (offset_seconds as i128) * NANOS_PER_SECOND;
    // a whole number of days, larger than any |local|
    let days: i128 = 10_000_000_000_000;
    let shifted: u128 = (local + days * NANOS_PER_DAY) as u128;
    let of_day: u128 = shifted % (NANOS_PER_DAY as u128);
    proof {
        lemma_mod_multiples_vanish(days as int, local as int, NANOS_PER_DAY as int);
    }
    let hour: u128 = of_day / (NANOS_PER_HOUR as u128);
    let minute: u128 = (of_day / (NANOS_PER_MINUTE as u128)) % 60;
    assert(hour < 24) by (nonlinear_arith)
        requires of_day < 86_400_000_000_000u128, hour == of_day / 3_600_000_000_000u128;
    (hour as u8, minute as u8)
}

} // verus!
