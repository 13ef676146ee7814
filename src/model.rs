//! The mathematical model of the race timer and of each of its operations.
use vstd::prelude::*;

verus! {

/// Default correction factor: 1042 per mille, that is 1.042, in parts per million.
pub const DEFAULT_CORRECTION_PPM: i64 = 1_042_000;

/// One metre per hour held for one microsecond covers 1/3600 micrometre.
pub const SECONDS_PER_HOUR: u128 = 3600;

/// Parts per million of the correction ratio.
pub const PPM_SCALE: i128 = 1_000_000;

/// Microseconds in one centisecond of race clock.
pub const MICROS_PER_CENTISECOND: u64 = 10_000;

/// The state of a race timer, as mathematical integers.
pub struct TimerModel {
    /// Raw simulated distance, micrometres.
    pub distance_um: int,
    /// Correction ratio, parts per million (1_042_000 stands for 1042 per mille).
    pub correction_ppm: int,
    /// Operator-set speed, metres per hour.
    pub speed_m_per_h: int,
    pub running: bool,
    /// Odometer minus corrected distance, as last recorded, micrometres.
    pub diff_snapshot_um: int,
    /// Physical odometer reading, micrometres.
    pub odometer_um: int,
    /// Monotonic time of the last integration, microseconds.
    pub last_tick_us: Option<int>,
    /// Base of the race clock, centiseconds.
    pub clock_start_cs: int,
    /// Running time since the base was set, microseconds.
    pub clock_accum_us: int,
}

pub open spec fn u64_max() -> int {
    u64::MAX as int
}

/// `x`, but no more than `hi`.
pub open spec fn capped(x: int, hi: int) -> int {
    if x > hi {
        hi
    } else {
        x
    }
}

/// `x` brought into the range of `i64`.
pub open spec fn clamp_i64(x: int) -> int {
    if x > i64::MAX {
        i64::MAX as int
    } else if x < i64::MIN {
        i64::MIN as int
    } else {
        x
    }
}

/// Time elapsed since the last integration; none before the first one, and
/// none if the clock reads earlier than that.
pub open spec fn elapsed_us(m: TimerModel, now_us: int) -> int {
    match m.last_tick_us {
        Some(t) => if now_us > t {
            now_us - t
        } else {
            0
        },
        None => 0,
    }
}

/// Distance covered at `speed_m_per_h` during `elapsed_us`, rounded down to
/// the micrometre. Only a positive speed moves the vehicle.
pub open spec fn distance_gain_um(speed_m_per_h: int, elapsed_us: int) -> int {
    if speed_m_per_h > 0 {
        speed_m_per_h * elapsed_us / (SECONDS_PER_HOUR as int)
    } else {
        0
    }
}

/// The integration step: while running, the race clock advances by the
/// elapsed time and the distance by what the current speed covers in it.
/// The baseline always moves to `now_us`.
pub open spec fn integrate(m: TimerModel, now_us: int) -> TimerModel {
    let e = elapsed_us(m, now_us);
    TimerModel {
        distance_um: if m.running {
            capped(m.distance_um + distance_gain_um(m.speed_m_per_h, e), u64_max())
        } else {
            m.distance_um
        },
        clock_accum_us: if m.running {
            capped(m.clock_accum_us + e, u64_max())
        } else {
            m.clock_accum_us
        },
        last_tick_us: Some(now_us),
        ..m
    }
}

/// Corrected distance: raw distance times the correction ratio, rounded down
/// to the micrometre.
pub open spec fn corrected_um(distance_um: int, correction_ppm: int) -> int {
    distance_um * correction_ppm / (PPM_SCALE as int)
}

pub open spec fn corrected_of(m: TimerModel) -> int {
    corrected_um(m.distance_um, m.correction_ppm)
}

/// Race clock now: the base plus the whole centiseconds run since it was set.
pub open spec fn race_clock_cs(m: TimerModel) -> int {
    clamp_i64(m.clock_start_cs + m.clock_accum_us / (MICROS_PER_CENTISECOND as int))
}

/// A timer as created, and as left by a full reset.
pub open spec fn default_model() -> TimerModel {
    TimerModel {
        distance_um: 0,
        correction_ppm: DEFAULT_CORRECTION_PPM as int,
        speed_m_per_h: 0,
        running: false,
        diff_snapshot_um: 0,
        odometer_um: 0,
        last_tick_us: None,
        clock_start_cs: 0,
        clock_accum_us: 0,
    }
}

/// Start: integrate under the old state, then run from `now_us` on.
pub open spec fn start_op(m: TimerModel, now_us: int) -> TimerModel {
    TimerModel { running: true, ..integrate(m, now_us) }
}

/// Stop: integrate up to `now_us`, then stop.
pub open spec fn stop_op(m: TimerModel, now_us: int) -> TimerModel {
    TimerModel { running: false, ..integrate(m, now_us) }
}

/// Toggle: stop a running timer, start a stopped one.
pub open spec fn toggle_op(m: TimerModel, now_us: int) -> TimerModel {
    if m.running {
        stop_op(m, now_us)
    } else {
        start_op(m, now_us)
    }
}

/// Set the speed: integrate under the old speed, then replace it.
pub open spec fn set_speed_op(m: TimerModel, now_us: int, speed_m_per_h: int) -> TimerModel {
    TimerModel { speed_m_per_h, ..integrate(m, now_us) }
}

/// Set the odometer reading and record the discrepancy with the corrected
/// distance as it stands.
pub open spec fn record_snapshot_op(m: TimerModel, odometer_um: int) -> TimerModel {
    TimerModel { odometer_um, diff_snapshot_um: odometer_um - corrected_of(m), ..m }
}

/// Move the odometer by `delta_um` (kept within `i64`) and record the
/// discrepancy anew.
pub open spec fn adjust_odometer_op(m: TimerModel, delta_um: int) -> TimerModel {
    record_snapshot_op(m, clamp_i64(m.odometer_um + delta_um))
}

/// Partial reset: distance, running flag, baseline and discrepancy are
/// cleared; the correction factor, speed, odometer and race clock stay.
pub open spec fn reset_op(m: TimerModel) -> TimerModel {
    TimerModel { distance_um: 0, running: false, last_tick_us: None, diff_snapshot_um: 0, ..m }
}

/// Set the race clock's base, and count running time from zero again.
pub open spec fn set_race_clock_start_op(m: TimerModel, start_cs: int) -> TimerModel {
    TimerModel { clock_start_cs: start_cs, clock_accum_us: 0, ..m }
}

} // verus!
