//! Square-wave synthesizer model and the triggered-beep protocol.
//!
//! The synthesizer is a phase accumulator: the phase lives in fixed-point
//! units where one full wave cycle spans the whole `u32` range, so advancing
//! the phase wraps it into one cycle by construction and never drifts. A
//! sample is in the positive half-wave exactly when the phase lies in the
//! first half of the cycle (where the sine of the corresponding angle is
//! non-negative); the audio callback turns each half-wave flag into
//! `+volume` or `-volume` on the device's sample type.
//!
//! The phase increment is derived at construction time from the target tone
//! frequency and the sample rate the audio device actually negotiated; no
//! sample rate is hardcoded.
//!
//! A triggered beep resumes the device's output for a fixed short duration
//! and then pauses it again, blocking the calling thread for that duration;
//! because the caller blocks, consecutive beep windows never overlap.

use vstd::prelude::*;

verus! {

/// Number of phase units in one full wave cycle (the full `u32` range).
pub const PHASE_CYCLE: u64 = 0x1_0000_0000;

/// Number of phase units in half a cycle: phases below it are the positive
/// half-wave, phases at or above it the negative half-wave.
pub const PHASE_HALF_CYCLE: u32 = 0x8000_0000;

/// Target tone frequency of the beep, in hertz.
pub const TONE_FREQUENCY_HZ: u32 = 440;

/// How long one triggered beep keeps the audio device resumed, in
/// milliseconds.
pub const BEEP_DURATION_MS: u64 = 50;

/// Whether a sample generated at this phase lies in the positive half-wave,
/// i.e. whether the sine of the corresponding angle is non-negative.
pub open spec fn spec_positive_half(phase: u32) -> bool {
    phase < PHASE_HALF_CYCLE
}

/// The phase reached from `phase` after `steps` advances by `inc`, wrapped
/// into one cycle.
pub open spec fn spec_phase_after(phase: u32, inc: u32, steps: int) -> u32 {
    ((phase + inc * steps) % (PHASE_CYCLE as int)) as u32
}

/// Advancing the wrapped phase by one more step is one wrapping addition.
proof fn lemma_phase_after_step(phase: u32, inc: u32, steps: int)
    requires
        steps >= 0,
    ensures
        spec_phase_after(phase, inc, steps + 1) == ((spec_phase_after(phase, inc, steps) + inc) % (
        PHASE_CYCLE as int)) as u32,
{
    let m = PHASE_CYCLE as int;
    let a = phase + inc * steps;
    assert(inc * (steps + 1) == inc * steps + inc) by (nonlinear_arith);
    vstd::arithmetic::div_mod::lemma_mod_bound(a, m);
    vstd::arithmetic::div_mod::lemma_add_mod_noop(a, inc as int, m);
    vstd::arithmetic::div_mod::lemma_mod_twice(a, m);
    vstd::arithmetic::div_mod::lemma_small_mod(inc as nat, m as nat);
}

/// The wave is periodic: whenever `inc * period` is a whole number of
/// cycles, the sample taken `period` steps later is always the same as the
/// sample taken now, from any starting phase.
pub proof fn lemma_wave_periodic(phase: u32, inc: u32, period: int, i: int)
    requires
        i >= 0,
        period >= 0,
        (inc * period) % (PHASE_CYCLE as int) == 0,
    ensures
        spec_phase_after(phase, inc, i + period) == spec_phase_after(phase, inc, i),
        spec_positive_half(spec_phase_after(phase, inc, i + period)) == spec_positive_half(
            spec_phase_after(phase, inc, i),
        ),
{
    let m = PHASE_CYCLE as int;
    assert(inc * (i + period) == inc * i + inc * period) by (nonlinear_arith);
    vstd::arithmetic::div_mod::lemma_add_mod_noop(phase + inc * i, inc * period, m);
    vstd::arithmetic::div_mod::lemma_mod_twice(phase + inc * i, m);
    vstd::arithmetic::div_mod::lemma_mod_bound(phase + inc * i, m);
}

/// Square-wave state: the wrapped phase and the per-sample phase increment.
/// Only the audio callback mutates it; the main thread merely toggles the
/// device's resume/pause signal.
pub struct SquareWave {
    pub phase: u32,
    pub phase_inc: u32,
}

impl SquareWave {
    /// The per-sample phase increment for a tone of `tone_freq` hertz on a
    /// device that negotiated `sample_rate` samples per second: the fraction
    /// `tone_freq / sample_rate` of a full cycle, rounded down to whole
    /// phase units.
    pub open spec fn spec_phase_increment(tone_freq: u32, sample_rate: u32) -> u32 {
        ((tone_freq * PHASE_CYCLE) / (sample_rate as int)) as u32
    }

    /// Builds the synthesizer state for the negotiated device sample rate,
    /// starting at phase zero. Tones at or above the sample rate cannot be
    /// represented, so the tone frequency must stay below it.
    pub fn new(tone_freq: u32, sample_rate: u32) -> (r: SquareWave)
        requires
            0 < sample_rate,
            tone_freq < sample_rate,
        ensures
            r.phase == 0,
            r.phase_inc == Self::spec_phase_increment(tone_freq, sample_rate),
    {
        proof {
            let f = tone_freq as int;
            let s = sample_rate as int;
            let c = PHASE_CYCLE as int;
            assert(f * c <= 0xFFFF_FFFF * c) by (nonlinear_arith)
                requires
                    0 <= f <= 0xFFFF_FFFF,
                    c >= 0,
            ;
            assert(f * c < s * c) by (nonlinear_arith)
                requires
                    0 <= f < s,
                    c > 0,
            ;
            vstd::arithmetic::div_mod::lemma_multiply_divide_lt(f * c, s, c);
        }
        let units: u64 = ((tone_freq as u64) * PHASE_CYCLE) / (sample_rate as u64);
        SquareWave { phase: 0, phase_inc: units as u32 }
    }

    /// Fills one audio buffer: sample `i` is the half-wave flag of the phase
    /// reached after `i` advances from the current phase, and the state ends
    /// at the phase past the last sample. `true` means the positive
    /// half-wave (`+volume`), `false` the negative one (`-volume`).
    pub fn callback(&mut self, n: usize) -> (out: Vec<bool>)
        ensures
            out@.len() == n,
            forall|i: int|
                0 <= i < n ==> out@[i] == spec_positive_half(
                    spec_phase_after(old(self).phase, old(self).phase_inc, i),
                ),
            final(self).phase == spec_phase_after(old(self).phase, old(self).phase_inc, n as int),
            final(self).phase_inc == old(self).phase_inc,
    {
        let mut out: Vec<bool> = Vec::new();
        let mut i: usize = 0;
        proof {
            let m = PHASE_CYCLE as int;
            vstd::arithmetic::div_mod::lemma_small_mod(self.phase as nat, m as nat);
        }
        while i < n
            invariant
                i <= n,
                out@.len() == i,
                self.phase_inc == old(self).phase_inc,
                self.phase == spec_phase_after(old(self).phase, old(self).phase_inc, i as int),
                forall|j: int|
                    0 <= j < i ==> out@[j] == spec_positive_half(
                        spec_phase_after(old(self).phase, old(self).phase_inc, j),
                    ),
            decreases n - i,
        {
            out.push(self.phase < PHASE_HALF_CYCLE);
            proof {
                lemma_phase_after_step(old(self).phase, old(self).phase_inc, i as int);
            }
            self.phase = self.phase.wrapping_add(self.phase_inc);
            i = i + 1;
        }
        out
    }
}

/// The half-open interval of time, in milliseconds, during which a beep
/// triggered at `start` keeps the audio device resumed.
pub open spec fn spec_beep_window(start: u64) -> (int, int) {
    (start as int, start + BEEP_DURATION_MS)
}

/// Schedules one triggered beep at time `now`: the device is resumed at
/// once and paused again exactly `BEEP_DURATION_MS` later, with the calling
/// thread blocked in between. Returns the resume and pause times.
pub fn beep_schedule(now: u64) -> (r: (u64, u64))
    requires
        now + BEEP_DURATION_MS <= u64::MAX,
    ensures
        r.0 == now,
        r.1 == now + BEEP_DURATION_MS,
        r.1 - r.0 == BEEP_DURATION_MS,
        (r.0 as int, r.1 as int) == spec_beep_window(now),
{
    (now, now + BEEP_DURATION_MS)
}

/// Back-to-back triggers never overlap: a beep blocks its caller for the
/// whole beep duration, so a second trigger can only happen once the first
/// window is over, and the two playback windows are disjoint — each trigger
/// produces at most `BEEP_DURATION_MS` of output.
pub proof fn lemma_beeps_never_overlap(t1: u64, t2: u64)
    requires
        t1 + BEEP_DURATION_MS <= t2,
    ensures
        spec_beep_window(t1).1 <= spec_beep_window(t2).0,
        spec_beep_window(t1).1 - spec_beep_window(t1).0 == BEEP_DURATION_MS,
        spec_beep_window(t2).1 - spec_beep_window(t2).0 == BEEP_DURATION_MS,
{
}

} // verus!
