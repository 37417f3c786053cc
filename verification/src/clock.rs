//! The beat clock: song time in whole microseconds, quantised to sub-beats.
//!
//! Time is counted in microseconds so that quantising never drifts: the tick
//! of a moment is a function of that moment and the tempo alone.

use crate::music::SUBNOTES;
use vstd::prelude::*;

verus! {

pub const MICROS_PER_SECOND: i64 = 1_000_000;

pub const MICROS_PER_MINUTE: i64 = 60_000_000;

/// The sub-beat in which the moment `time` (in microseconds) falls at `bpm`
/// beats per minute, rounded down: negative before the song starts.
pub open spec fn sub_beat_exact(time: int, bpm: int) -> int {
    (time * bpm * (SUBNOTES as int)) / (MICROS_PER_MINUTE as int)
}

/// `value`, held within the range of a 32-bit tick counter.
pub open spec fn as_tick(value: int) -> int {
    if value < i32::MIN {
        i32::MIN as int
    } else if value > i32::MAX {
        i32::MAX as int
    } else {
        value
    }
}

/// The tick of the moment `time`: its sub-beat, as far as a tick counter reaches.
pub open spec fn sub_beat(time: int, bpm: int) -> int {
    as_tick(sub_beat_exact(time, bpm))
}

/// Whether the clock fires on going from `last_tick` to `new_tick`: it has
/// crossed into a later sub-beat, and the song has started.
pub open spec fn fires(last_tick: int, new_tick: int) -> bool {
    new_tick > last_tick && new_tick >= 0
}

/// The tick that is due on going from `last_tick` to `new_tick`. However many
/// sub-beats lie between the two, only `new_tick` is ever due.
pub open spec fn due_tick(last_tick: int, new_tick: int) -> Option<i32> {
    if fires(last_tick, new_tick) {
        Some(new_tick as i32)
    } else {
        None
    }
}

/// At a tempo that is not negative the ticks never run back: a later moment
/// has a tick that is no earlier.
pub proof fn lemma_ticks_never_run_back(earlier: int, later_on: int, bpm: int)
    requires
        earlier <= later_on,
        bpm >= 0,
    ensures
        sub_beat(earlier, bpm) <= sub_beat(later_on, bpm),
{
    assert(earlier * bpm <= later_on * bpm) by (nonlinear_arith)
        requires
            earlier <= later_on,
            bpm >= 0,
    ;
    assert(earlier * bpm * (SUBNOTES as int) <= later_on * bpm * (SUBNOTES as int));
}

/// The tick of the moment `time` at `bpm` beats per minute.
pub fn sub_beat_at(time: i64, bpm: i32) -> (tick: i32)
    ensures
        tick == sub_beat(time as int, bpm as int),
{
    assert(-0x8000_0000_0000_0000 * 0x8000_0000 <= time * bpm <= 0x8000_0000_0000_0000
        * 0x8000_0000) by (nonlinear_arith)
        requires
            -0x8000_0000_0000_0000 <= time < 0x8000_0000_0000_0000,
            -0x8000_0000 <= bpm < 0x8000_0000,
    ;
    assert(time * bpm * 4 == time * bpm * (SUBNOTES as int));
    let scaled: i128 = time as i128 * bpm as i128 * 4;
    let toward_zero: i128 = scaled / 60_000_000;
    let floor: i128 = if scaled % 60_000_000 < 0 {
        toward_zero - 1
    } else {
        toward_zero
    };
    assert(floor == sub_beat_exact(time as int, bpm as int));
    if floor < i32::MIN as i128 {
        i32::MIN
    } else if floor > i32::MAX as i128 {
        i32::MAX
    } else {
        floor as i32
    }
}

/// The tick that is due on going from `last_tick` to `new_tick`, if any: at
/// most one per step.
pub fn crossing(last_tick: i32, new_tick: i32) -> (due: Option<i32>)
    ensures
        due == due_tick(last_tick as int, new_tick as int),
{
    if new_tick > last_tick && new_tick >= 0 {
        Some(new_tick)
    } else {
        None
    }
}

/// `time` moved on by `delta` microseconds, stopping at the end of
/// representable time.
pub open spec fn later(time: int, delta: int) -> int {
    if time + delta > i64::MAX {
        i64::MAX as int
    } else {
        time + delta
    }
}

/// `time` moved on by `delta` microseconds.
pub fn advance(time: i64, delta: u32) -> (now: i64)
    ensures
        now == later(time as int, delta as int),
{
    if time > i64::MAX - (delta as i64) {
        i64::MAX
    } else {
        time + delta as i64
    }
}

/// A countdown of `ttl` microseconds, `delta` microseconds on: it runs
/// below zero, as far as the counter reaches.
pub open spec fn counted_down(ttl: int, delta: int) -> int {
    if ttl - delta < i64::MIN {
        i64::MIN as int
    } else {
        ttl - delta
    }
}

/// A countdown of `ttl` microseconds, `delta` microseconds on.
pub fn count_down(ttl: i64, delta: u32) -> (left: i64)
    ensures
        left == counted_down(ttl as int, delta as int),
{
    if ttl < i64::MIN + (delta as i64) {
        i64::MIN
    } else {
        ttl - delta as i64
    }
}

} // verus!
