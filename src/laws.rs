//! Laws of the race timer, stated over its model and proved.
use vstd::prelude::*;
use crate::model::{
    adjust_odometer_op, capped, corrected_of, corrected_um, default_model, distance_gain_um,
    integrate, record_snapshot_op, reset_op, start_op, stop_op, toggle_op, u64_max, TimerModel,
    DEFAULT_CORRECTION_PPM, PPM_SCALE, SECONDS_PER_HOUR,
};
use crate::race_timer::{reports, RaceTimerState};

verus! {

/// Over one uninterrupted span of `t_us` while running at a speed that is not
/// negative, the distance grows by speed times time (metres per hour times
/// microseconds over 3600 is micrometres, rounded down) and the race clock
/// by the span itself; both stop growing at the largest `u64`.
pub proof fn lemma_uninterrupted_span(m: TimerModel, t_us: int)
    requires
        m.running,
        m.speed_m_per_h >= 0,
        m.last_tick_us is Some,
        t_us >= 0,
    ensures
        integrate(m, m.last_tick_us->0 + t_us).distance_um == capped(
            m.distance_um + m.speed_m_per_h * t_us / (SECONDS_PER_HOUR as int),
            u64_max(),
        ),
        integrate(m, m.last_tick_us->0 + t_us).clock_accum_us == capped(
            m.clock_accum_us + t_us,
            u64_max(),
        ),
        m.distance_um + m.speed_m_per_h * t_us / (SECONDS_PER_HOUR as int) <= u64_max()
            ==> integrate(m, m.last_tick_us->0 + t_us).distance_um == m.distance_um
            + m.speed_m_per_h * t_us / (SECONDS_PER_HOUR as int),
        m.clock_accum_us + t_us <= u64_max() ==> integrate(
            m,
            m.last_tick_us->0 + t_us,
        ).clock_accum_us == m.clock_accum_us + t_us,
        integrate(m, m.last_tick_us->0 + t_us).last_tick_us == Some(m.last_tick_us->0 + t_us),
{
    if m.speed_m_per_h == 0 {
        assert(m.speed_m_per_h * t_us == 0);
    }
}

/// Stopping, then starting again after any gap, charges nothing for the gap:
/// distance and race clock stand where the stop left them.
pub proof fn lemma_stop_start_gap(m: TimerModel, t_stop: int, t_start: int)
    requires
        t_stop <= t_start,
    ensures
        ({
            let stopped = stop_op(m, t_stop);
            let restarted = start_op(stopped, t_start);
            &&& stopped.distance_um == integrate(m, t_stop).distance_um
            &&& stopped.clock_accum_us == integrate(m, t_stop).clock_accum_us
            &&& restarted.distance_um == stopped.distance_um
            &&& restarted.clock_accum_us == stopped.clock_accum_us
            &&& restarted.running
            &&& restarted.last_tick_us == Some(t_start)
        }),
{
}

/// A start counts from the moment of the start: a stopped timer keeps its
/// distance and clock through the start, and the next integration adds only
/// what runs after it.
pub proof fn lemma_start_counts_from_start(m: TimerModel, start_us: int, later_us: int)
    requires
        start_us <= later_us,
    ensures
        ({
            let started = start_op(m, start_us);
            &&& started.running
            &&& started.last_tick_us == Some(start_us)
            &&& !m.running ==> started.distance_um == m.distance_um
            &&& !m.running ==> started.clock_accum_us == m.clock_accum_us
            &&& integrate(started, later_us).clock_accum_us == capped(
                started.clock_accum_us + (later_us - start_us),
                u64_max(),
            )
            &&& integrate(started, later_us).distance_um == capped(
                started.distance_um + distance_gain_um(
                    started.speed_m_per_h,
                    later_us - start_us,
                ),
                u64_max(),
            )
        }),
{
}

/// Two toggles restore the running flag.
pub proof fn lemma_toggle_twice(m: TimerModel, t1: int, t2: int)
    ensures
        toggle_op(toggle_op(m, t1), t2).running == m.running,
{
}

/// Every reported snapshot is consistent: its corrected distance is its raw
/// distance times its correction factor, rounded down to the micrometre.
pub proof fn lemma_snapshot_consistent(s: RaceTimerState, m: TimerModel)
    requires
        reports(s, m),
    ensures
        s.corrected_um == s.raw_um * s.correction_ppm / (PPM_SCALE as int),
        s.corrected_um == corrected_um(s.raw_um as int, s.correction_ppm as int),
{
}

/// Recording an odometer reading fixes the difference at the corrected
/// distance of that moment; integrating later does not recompute it.
pub proof fn lemma_snapshot_point_in_time(m: TimerModel, odometer_um: int, later_us: int)
    ensures
        record_snapshot_op(m, odometer_um).diff_snapshot_um == odometer_um - corrected_um(
            m.distance_um,
            m.correction_ppm,
        ),
        integrate(record_snapshot_op(m, odometer_um), later_us).diff_snapshot_um
            == record_snapshot_op(m, odometer_um).diff_snapshot_um,
        integrate(record_snapshot_op(m, odometer_um), later_us).odometer_um == odometer_um,
{
}

/// A full reset restores every default: correction factor 1042 per mille,
/// everything else zero, stopped, with no baseline. A partial reset keeps
/// the correction factor, speed and odometer.
pub proof fn lemma_resets(m: TimerModel)
    ensures
        default_model().correction_ppm == DEFAULT_CORRECTION_PPM,
        DEFAULT_CORRECTION_PPM == 1_042_000,
        default_model().distance_um == 0,
        default_model().speed_m_per_h == 0,
        !default_model().running,
        default_model().diff_snapshot_um == 0,
        default_model().odometer_um == 0,
        default_model().last_tick_us is None,
        default_model().clock_start_cs == 0,
        default_model().clock_accum_us == 0,
        reset_op(m).correction_ppm == m.correction_ppm,
        reset_op(m).speed_m_per_h == m.speed_m_per_h,
        reset_op(m).odometer_um == m.odometer_um,
        reset_op(m).distance_um == 0,
        !reset_op(m).running,
        reset_op(m).last_tick_us is None,
        reset_op(m).diff_snapshot_um == 0,
{
}

/// Two odometer adjustments add up, and each records the difference with
/// the corrected distance of its own moment (the readings stay within `i64`).
pub proof fn lemma_adjust_odometer_twice(m: TimerModel, d1: int, d2: int)
    requires
        i64::MIN <= m.odometer_um + d1 <= i64::MAX,
        i64::MIN <= m.odometer_um + d1 + d2 <= i64::MAX,
    ensures
        ({
            let first = adjust_odometer_op(m, d1);
            let second = adjust_odometer_op(first, d2);
            &&& first.odometer_um == m.odometer_um + d1
            &&& first.diff_snapshot_um == m.odometer_um + d1 - corrected_of(m)
            &&& second.odometer_um == m.odometer_um + d1 + d2
            &&& second.diff_snapshot_um == m.odometer_um + d1 + d2 - corrected_of(first)
            &&& second.distance_um == m.distance_um
            &&& second.last_tick_us == m.last_tick_us
        }),
{
}

} // verus!
