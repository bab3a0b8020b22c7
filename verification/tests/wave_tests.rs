use chip8_desktop::wave::beep_schedule;
use chip8_desktop::wave::SquareWave;
use chip8_desktop::wave::BEEP_DURATION_MS;
use chip8_desktop::wave::PHASE_HALF_CYCLE;
use chip8_desktop::wave::TONE_FREQUENCY_HZ;

#[test]
fn phase_increment_follows_negotiated_sample_rate() {
    // 440 Hz tone: (440 * 2^32) / rate phase units per sample, rounded down.
    let w = SquareWave::new(TONE_FREQUENCY_HZ, 44100);
    assert_eq!(w.phase, 0);
    assert_eq!(w.phase_inc, 42852281);
    let w = SquareWave::new(TONE_FREQUENCY_HZ, 48000);
    assert_eq!(w.phase_inc, 39370533);
    // a different device rate yields a different increment: nothing is hardcoded
    assert_ne!(
        SquareWave::new(TONE_FREQUENCY_HZ, 22050).phase_inc,
        SquareWave::new(TONE_FREQUENCY_HZ, 44100).phase_inc
    );
}

#[test]
fn half_cycle_increment_alternates_every_sample() {
    // an increment of half a cycle per sample flips the half-wave each sample
    let mut w = SquareWave { phase: 0, phase_inc: PHASE_HALF_CYCLE };
    let out = w.callback(6);
    assert_eq!(out, vec![true, false, true, false, true, false]);
    assert_eq!(w.phase, 0);
}

#[test]
fn quarter_cycle_increment_has_period_four() {
    // a quarter of a cycle per sample: two positive samples, two negative
    let mut w = SquareWave { phase: 0, phase_inc: 0x4000_0000 };
    let out = w.callback(8);
    assert_eq!(
        out,
        vec![true, true, false, false, true, true, false, false]
    );
}

#[test]
fn callback_resumes_where_the_last_buffer_ended() {
    // two buffers of 3 samples equal one buffer of 6: no phase discontinuity
    let mut split = SquareWave { phase: 0x1234_5678, phase_inc: 0x0300_0000 };
    let mut whole = SquareWave { phase: 0x1234_5678, phase_inc: 0x0300_0000 };
    let mut first = split.callback(3);
    let second = split.callback(3);
    first.extend(second);
    assert_eq!(first, whole.callback(6));
    assert_eq!(split.phase, whole.phase);
}

#[test]
fn beep_holds_for_the_fixed_duration_then_pauses() {
    let (resume_at, pause_at) = beep_schedule(1000);
    assert_eq!(resume_at, 1000);
    assert_eq!(pause_at, 1000 + BEEP_DURATION_MS);
    assert_eq!(pause_at - resume_at, 50);
}

#[test]
fn back_to_back_beeps_do_not_overlap() {
    // the trigger blocks its caller for the whole beep, so the second
    // trigger can come no earlier than the first pause
    let (_, first_pause) = beep_schedule(1000);
    let (second_resume, second_pause) = beep_schedule(first_pause);
    assert!(first_pause <= second_resume);
    assert_eq!(second_pause - second_resume, BEEP_DURATION_MS);
}
