use chip8_desktop::keymap::KEY_ESCAPE;
use chip8_desktop::keymap::KEY_Q;
use chip8_desktop::keymap::KEY_W;
use chip8_desktop::scheduler::classify_event;
use chip8_desktop::scheduler::EventAction;
use chip8_desktop::scheduler::FramePlan;
use chip8_desktop::scheduler::FrameScheduler;
use chip8_desktop::scheduler::InputEvent;
use chip8_desktop::scheduler::LoopState;
use chip8_desktop::scheduler::FRAME_DURATION_MS;
use chip8_desktop::scheduler::TICKS_PER_FRAME;

#[test]
fn quit_and_escape_terminate_other_events_classify() {
    assert_eq!(classify_event(&InputEvent::Quit), EventAction::Terminate);
    assert_eq!(
        classify_event(&InputEvent::KeyDown { key: KEY_ESCAPE }),
        EventAction::Terminate
    );
    assert_eq!(
        classify_event(&InputEvent::KeyDown { key: KEY_W }),
        EventAction::Press { button: 0x5, pressed: true }
    );
    assert_eq!(
        classify_event(&InputEvent::KeyUp { key: KEY_W }),
        EventAction::Press { button: 0x5, pressed: false }
    );
    // escape going up terminates nothing and maps to nothing
    assert_eq!(
        classify_event(&InputEvent::KeyUp { key: KEY_ESCAPE }),
        EventAction::Ignore
    );
    // an unmapped key is silently ignored, not an error
    assert_eq!(
        classify_event(&InputEvent::KeyDown { key: 98 }),
        EventAction::Ignore
    );
    assert_eq!(classify_event(&InputEvent::Other), EventAction::Ignore);
}

#[test]
fn process_events_forwards_presses_in_order() {
    let mut sched = FrameScheduler::new(0, FRAME_DURATION_MS, TICKS_PER_FRAME);
    let events = vec![
        InputEvent::KeyDown { key: KEY_W },
        InputEvent::Other,
        InputEvent::KeyDown { key: 98 },
        InputEvent::KeyUp { key: KEY_Q },
    ];
    let presses = sched.process_events(&events);
    assert_eq!(presses, vec![(0x5, true), (0x4, false)]);
    assert!(sched.is_running());
}

#[test]
fn quit_mid_batch_stops_forwarding() {
    let mut sched = FrameScheduler::new(0, FRAME_DURATION_MS, TICKS_PER_FRAME);
    let events = vec![
        InputEvent::KeyDown { key: KEY_W },
        InputEvent::Quit,
        InputEvent::KeyDown { key: KEY_Q },
    ];
    let presses = sched.process_events(&events);
    assert_eq!(presses, vec![(0x5, true)]);
    assert_eq!(sched.state, LoopState::Terminated);
}

#[test]
fn no_frame_work_before_the_frame_duration_elapses() {
    let mut sched = FrameScheduler::new(100, 16, 10);
    let plan = sched.begin_frame(100 + 15);
    assert_eq!(
        plan,
        FramePlan { ticks: 0, advance_timers: false, render: true }
    );
    assert_eq!(sched.last_tick, 100);
}

#[test]
fn one_tick_budget_and_one_timer_step_per_elapsed_frame() {
    let mut sched = FrameScheduler::new(100, 16, 10);
    let plan = sched.begin_frame(100 + 16);
    assert_eq!(
        plan,
        FramePlan { ticks: 10, advance_timers: true, render: true }
    );
    assert_eq!(sched.last_tick, 116);
}

#[test]
fn a_very_late_frame_still_advances_timers_only_once() {
    // ten frame durations of lateness: no catch-up burst, lateness dropped
    let mut sched = FrameScheduler::new(100, 16, 10);
    let plan = sched.begin_frame(100 + 160);
    assert_eq!(
        plan,
        FramePlan { ticks: 10, advance_timers: true, render: true }
    );
    assert_eq!(sched.last_tick, 260);
    // the next check measures from the late frame itself
    let plan = sched.begin_frame(260 + 15);
    assert!(!plan.advance_timers);
}

#[test]
fn pacing_sleeps_off_the_remainder_of_the_frame() {
    let sched = FrameScheduler::new(0, 16, 10);
    assert_eq!(sched.pace(3), 13);
    assert_eq!(sched.pace(0), 16);
    assert_eq!(sched.pace(16), 0);
    assert_eq!(sched.pace(100), 0);
}

#[test]
fn quit_mid_frame_skips_the_remaining_pipeline_stages() {
    let mut sched = FrameScheduler::new(0, 16, 10);
    // a full frame duration has elapsed, so work would be due...
    let (presses, plan) = sched.run_frame(
        100,
        &vec![InputEvent::KeyDown { key: KEY_W }, InputEvent::Quit],
    );
    // ...but the quit cuts the iteration short: no ticks, no timer
    // advancement, no render, and the cadence reference is untouched
    assert_eq!(presses, vec![(0x5, true)]);
    assert_eq!(
        plan,
        FramePlan { ticks: 0, advance_timers: false, render: false }
    );
    assert_eq!(sched.state, LoopState::Terminated);
    assert_eq!(sched.last_tick, 0);
}

#[test]
fn one_second_of_idle_frames_yields_the_expected_totals() {
    // frame duration 16 ms, tick budget 10, no input: over one second the
    // virtual machine sees ~600 instruction steps and ~60 timer advancements
    let mut sched = FrameScheduler::new(0, 16, 10);
    let mut now: u64 = 0;
    let mut total_ticks: u64 = 0;
    let mut timer_steps: u64 = 0;
    let no_events: Vec<InputEvent> = Vec::new();
    while now < 1000 {
        let (_, plan) = sched.run_frame(now, &no_events);
        assert!(plan.render);
        total_ticks += plan.ticks as u64;
        if plan.advance_timers {
            timer_steps += 1;
        }
        // the frame work itself is instantaneous here; pacing fills the frame
        now += sched.pace(0);
    }
    assert!(sched.is_running());
    assert_eq!(timer_steps, 62);
    assert_eq!(total_ticks, 620);
    assert_eq!(total_ticks, timer_steps * 10);
    assert!((58..=63).contains(&timer_steps));
    assert!((580..=630).contains(&total_ticks));
}
