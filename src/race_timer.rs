//! The race timer: the authoritative simulation state and its operations.
use vstd::prelude::*;
use crate::model::{
    adjust_odometer_op, clamp_i64, corrected_of, corrected_um, default_model, integrate,
    race_clock_cs, record_snapshot_op, reset_op, set_race_clock_start_op, set_speed_op, start_op,
    stop_op, toggle_op, TimerModel, DEFAULT_CORRECTION_PPM, MICROS_PER_CENTISECOND, PPM_SCALE,
    SECONDS_PER_HOUR,
};

verus! {

/// What the timer reports: its primary fields and the derived corrected
/// distance and race clock.
#[derive(Clone, Copy, Debug, PartialEq, Eq)]
pub struct RaceTimerState {
    /// Raw simulated distance, micrometres.
    pub raw_um: u64,
    /// Raw distance times the correction ratio, micrometres.
    pub corrected_um: i128,
    /// Correction ratio, parts per million.
    pub correction_ppm: i64,
    /// Operator-set speed, metres per hour.
    pub speed_m_per_h: i64,
    pub is_running: bool,
    /// Odometer minus corrected distance, as last recorded, micrometres.
    pub diff_snapshot_um: i128,
    /// Physical odometer reading, micrometres.
    pub odometer_um: i64,
    /// Race clock, centiseconds.
    pub race_clock_centiseconds: i64,
}

/// `s` reports the timer state `m`.
pub open spec fn reports(s: RaceTimerState, m: TimerModel) -> bool {
    &&& s.raw_um == m.distance_um
    &&& s.corrected_um == corrected_of(m)
    &&& s.correction_ppm == m.correction_ppm
    &&& s.speed_m_per_h == m.speed_m_per_h
    &&& s.is_running == m.running
    &&& s.diff_snapshot_um == m.diff_snapshot_um
    &&& s.odometer_um == m.odometer_um
    &&& s.race_clock_centiseconds == race_clock_cs(m)
}

/// `x` brought into the range of `i64`.
fn saturate_i64(x: i128) -> (r: i64)
    ensures
        r == clamp_i64(x as int),
{
    if x > i64::MAX as i128 {
        i64::MAX
    } else if x < i64::MIN as i128 {
        i64::MIN
    } else {
        x as i64
    }
}

/// `distance_um` times `correction_ppm` parts per million, rounded down.
fn corrected_distance(distance_um: u64, correction_ppm: i64) -> (r: i128)
    ensures
        r == corrected_um(distance_um as int, correction_ppm as int),
        -0x1_0000_0000_0000_0000_0000_0000_0000 < r < 0x1_0000_0000_0000_0000_0000_0000_0000,
{
    let d = distance_um as i128;
    let f = correction_ppm as i128;
    assert(-0x8000_0000_0000_0000_0000_0000_0000_0000 < d * f < 0x8000_0000_0000_0000_0000_0000_0000_0000)
        by (nonlinear_arith)
        requires
            0 <= d < 0x1_0000_0000_0000_0000,
            -0x8000_0000_0000_0000 <= f < 0x8000_0000_0000_0000,
    ;
    let p = d * f;
    if p >= 0 {
        ((p as u128) / (PPM_SCALE as u128)) as i128
    } else {
        let n = (-p) as u128;
        let q = ((n + (PPM_SCALE as u128 - 1)) / (PPM_SCALE as u128)) as i128;
        assert(-q == (p as int) / (PPM_SCALE as int));
        -q
    }
}

/// The race timer's state. Every operation that depends on time takes the
/// current reading of a monotonic clock, in microseconds.
pub struct RaceTimer {
    accumulated_um: u64,
    correction_ppm: i64,
    speed_m_per_h: i64,
    is_running: bool,
    diff_snapshot_um: i128,
    odometer_um: i64,
    last_tick_us: Option<u64>,
    race_clock_start_cs: i64,
    race_clock_accum_us: u64,
}

impl View for RaceTimer {
    type V = TimerModel;

    closed spec fn view(&self) -> TimerModel {
        TimerModel {
            distance_um: self.accumulated_um as int,
            correction_ppm: self.correction_ppm as int,
            speed_m_per_h: self.speed_m_per_h as int,
            running: self.is_running,
            diff_snapshot_um: self.diff_snapshot_um as int,
            odometer_um: self.odometer_um as int,
            last_tick_us: match self.last_tick_us {
                Some(t) => Some(t as int),
                None => None,
            },
            clock_start_cs: self.race_clock_start_cs as int,
            clock_accum_us: self.race_clock_accum_us as int,
        }
    }
}

/// Every field of the model stays within the range of the field that holds
/// it: distance and clock count in `u64`, the rest in `i64`, the recorded
/// difference in `i128`.
pub proof fn lemma_view_in_range(t: &RaceTimer)
    ensures
        0 <= t@.distance_um <= u64::MAX,
        0 <= t@.clock_accum_us <= u64::MAX,
        i64::MIN <= t@.correction_ppm <= i64::MAX,
        i64::MIN <= t@.speed_m_per_h <= i64::MAX,
        i64::MIN <= t@.odometer_um <= i64::MAX,
        i64::MIN <= t@.clock_start_cs <= i64::MAX,
        i128::MIN <= t@.diff_snapshot_um <= i128::MAX,
        t@.last_tick_us matches Some(v) ==> 0 <= v <= u64::MAX,
{
}

impl RaceTimer {
    /// A stopped timer at rest, with the default correction factor.
    pub fn new() -> (r: RaceTimer)
        ensures
            r@ == default_model(),
    {
        RaceTimer {
            accumulated_um: 0,
            correction_ppm: DEFAULT_CORRECTION_PPM,
            speed_m_per_h: 0,
            is_running: false,
            diff_snapshot_um: 0,
            odometer_um: 0,
            last_tick_us: None,
            race_clock_start_cs: 0,
            race_clock_accum_us: 0,
        }
    }

    /// Integrates the time elapsed since the last integration, under the
    /// current speed and running flag, and makes `now_us` the new baseline.
    pub fn update(&mut self, now_us: u64)
        ensures
            final(self)@ == integrate(old(self)@, now_us as int),
    {
        if let Some(last) = self.last_tick_us {
            let elapsed = now_us.saturating_sub(last);
            if self.is_running {
                self.race_clock_accum_us = self.race_clock_accum_us.saturating_add(elapsed);
                if self.speed_m_per_h > 0 {
                    let speed = self.speed_m_per_h as u128;
                    let e = elapsed as u128;
                    assert(speed * e < 0x8000_0000_0000_0000_0000_0000_0000_0000) by (nonlinear_arith)
                        requires
                            speed < 0x8000_0000_0000_0000,
                            e < 0x1_0000_0000_0000_0000,
                    ;
                    let gain = speed * e / SECONDS_PER_HOUR;
                    let total = self.accumulated_um as u128 + gain;
                    self.accumulated_um = if total > u64::MAX as u128 {
                        u64::MAX
                    } else {
                        total as u64
                    };
                }
            }
        }
        self.last_tick_us = Some(now_us);
    }

    /// One tick of the ticker: integrates up to `now_us` and reports the result.
    pub fn tick(&mut self, now_us: u64) -> (s: RaceTimerState)
        ensures
            final(self)@ == integrate(old(self)@, now_us as int),
            reports(s, final(self)@),
    {
        self.update(now_us);
        self.get_state()
    }

    /// The current snapshot. Time is not integrated here: that is the
    /// ticker's and the operations' part.
    pub fn get_state(&self) -> (s: RaceTimerState)
        ensures
            reports(s, self@),
    {
        let clock = self.race_clock_start_cs as i128
            + (self.race_clock_accum_us / MICROS_PER_CENTISECOND) as i128;
        RaceTimerState {
            raw_um: self.accumulated_um,
            corrected_um: corrected_distance(self.accumulated_um, self.correction_ppm),
            correction_ppm: self.correction_ppm,
            speed_m_per_h: self.speed_m_per_h,
            is_running: self.is_running,
            diff_snapshot_um: self.diff_snapshot_um,
            odometer_um: self.odometer_um,
            race_clock_centiseconds: saturate_i64(clock),
        }
    }

    /// Integrates up to `now_us`, then runs from there on.
    pub fn start(&mut self, now_us: u64)
        ensures
            final(self)@ == start_op(old(self)@, now_us as int),
    {
        self.update(now_us);
        self.is_running = true;
    }

    /// Integrates up to `now_us`, capturing the final distance and clock, then stops.
    pub fn stop(&mut self, now_us: u64)
        ensures
            final(self)@ == stop_op(old(self)@, now_us as int),
    {
        self.update(now_us);
        self.is_running = false;
    }

    /// Stops a running timer, starts a stopped one; returns the new running flag.
    pub fn toggle(&mut self, now_us: u64) -> (running: bool)
        ensures
            final(self)@ == toggle_op(old(self)@, now_us as int),
            running == !old(self)@.running,
            running == final(self)@.running,
    {
        if self.is_running {
            self.stop(now_us);
        } else {
            self.start(now_us);
        }
        self.is_running
    }

    /// Integrates under the old speed up to `now_us`, then sets the new one.
    pub fn set_speed(&mut self, now_us: u64, speed_m_per_h: i64)
        ensures
            final(self)@ == set_speed_op(old(self)@, now_us as int, speed_m_per_h as int),
    {
        self.update(now_us);
        self.speed_m_per_h = speed_m_per_h;
    }

    /// Replaces the correction factor; distance accumulation is unaffected.
    pub fn set_correction_factor(&mut self, correction_ppm: i64)
        ensures
            final(self)@ == (TimerModel { correction_ppm: correction_ppm as int, ..old(self)@ }),
    {
        self.correction_ppm = correction_ppm;
    }

    /// Adds `delta_ppm` to the correction factor (kept within `i64`) and
    /// returns the new factor.
    pub fn adjust_correction_factor(&mut self, delta_ppm: i64) -> (factor: i64)
        ensures
            factor == clamp_i64(old(self)@.correction_ppm + delta_ppm),
            final(self)@ == (TimerModel { correction_ppm: factor as int, ..old(self)@ }),
    {
        self.correction_ppm = saturate_i64(self.correction_ppm as i128 + delta_ppm as i128);
        self.correction_ppm
    }

    /// Sets the odometer reading and records its difference from the
    /// corrected distance as it stands, without integrating; returns that
    /// difference.
    pub fn record_snapshot(&mut self, odometer_um: i64) -> (diff: i128)
        ensures
            diff == odometer_um - corrected_of(old(self)@),
            final(self)@ == record_snapshot_op(old(self)@, odometer_um as int),
    {
        self.odometer_um = odometer_um;
        let corrected = corrected_distance(self.accumulated_um, self.correction_ppm);
        self.diff_snapshot_um = odometer_um as i128 - corrected;
        self.diff_snapshot_um
    }

    /// Sets the odometer reading and records the difference anew, as
    /// `record_snapshot` does.
    pub fn set_odometer(&mut self, odometer_um: i64)
        ensures
            final(self)@ == record_snapshot_op(old(self)@, odometer_um as int),
    {
        self.record_snapshot(odometer_um);
    }

    /// Moves the odometer by `delta_um` (kept within `i64`), records the
    /// difference anew and returns the new reading.
    pub fn adjust_odometer(&mut self, delta_um: i64) -> (odometer_um: i64)
        ensures
            odometer_um == clamp_i64(old(self)@.odometer_um + delta_um),
            final(self)@ == adjust_odometer_op(old(self)@, delta_um as int),
    {
        let reading = saturate_i64(self.odometer_um as i128 + delta_um as i128);
        self.record_snapshot(reading);
        reading
    }

    /// Sets the odometer to zero and records the difference anew.
    pub fn reset_odometer(&mut self)
        ensures
            final(self)@ == record_snapshot_op(old(self)@, 0),
    {
        self.record_snapshot(0);
    }

    /// Integrates up to `now_us`, then clears the distance, stops, forgets
    /// the baseline and clears the recorded difference; keeps the correction
    /// factor, speed, odometer and race clock.
    pub fn reset(&mut self, now_us: u64)
        ensures
            final(self)@ == reset_op(integrate(old(self)@, now_us as int)),
    {
        self.update(now_us);
        self.accumulated_um = 0;
        self.is_running = false;
        self.last_tick_us = None;
        self.diff_snapshot_um = 0;
    }

    /// Restores every field to its default.
    pub fn full_reset(&mut self)
        ensures
            final(self)@ == default_model(),
    {
        *self = RaceTimer::new();
    }

    /// Integrates up to `now_us`, then sets the race clock's base and counts
    /// running time from zero again, from `now_us` on.
    pub fn set_race_clock_start(&mut self, now_us: u64, centiseconds: i64)
        ensures
            final(self)@ == set_race_clock_start_op(
                integrate(old(self)@, now_us as int),
                centiseconds as int,
            ),
    {
        self.update(now_us);
        self.race_clock_start_cs = centiseconds;
        self.race_clock_accum_us = 0;
    }
}

} // verus!
