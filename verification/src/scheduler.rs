//! Fixed-timestep frame scheduler: the decision nucleus of the interactive
//! loop.
//!
//! One loop iteration, in strict order: classify all pending input events
//! (quit or escape terminates; mapped keys become button presses; everything
//! else is silently ignored), then — only while still running — decide the
//! frame work from the elapsed time: when at least one frame duration has
//! passed since the last timer advancement, run exactly the tick budget of
//! instruction steps and advance the timers exactly once, however late the
//! frame is (lateness is dropped, never accumulated, so the timer cadence
//! stays capped); otherwise run nothing. Rendering happens every iteration,
//! decoupled from the timer cadence, and the iteration ends by sleeping off
//! whatever remains of the frame duration.
//!
//! The host binary performs the outside work (polling the event queue,
//! stepping the virtual machine, drawing, sleeping) and feeds plain values
//! — timestamps and key codes — to these decisions.

use vstd::prelude::*;

use crate::keymap::spec_key2btn;
use crate::keymap::KEY_ESCAPE;
use crate::keymap::key2btn;

verus! {

/// Number of virtual-machine instruction steps executed per display frame.
pub const TICKS_PER_FRAME: usize = 10;

/// Target duration of one display frame, in milliseconds (60 frames per
/// second, rounded down to whole milliseconds).
pub const FRAME_DURATION_MS: u64 = 1000 / 60;

/// The two states of the interactive loop; there is no way back from
/// `Terminated`.
#[derive(Clone, Copy, Debug, PartialEq, Eq, Structural)]
pub enum LoopState {
    Running,
    Terminated,
}

/// One input event, already reduced to plain values: the key of a key event
/// is its virtual key code.
#[derive(Clone, Copy, Debug, PartialEq, Eq, Structural)]
pub enum InputEvent {
    Quit,
    KeyDown { key: i32 },
    KeyUp { key: i32 },
    Other,
}

/// What one input event asks of the loop.
#[derive(Clone, Copy, Debug, PartialEq, Eq, Structural)]
pub enum EventAction {
    /// Leave the loop: a quit event, or the escape key going down.
    Terminate,
    /// Forward a button state change to the virtual machine.
    Press { button: usize, pressed: bool },
    /// An unmapped key or an unrelated event: silently ignored.
    Ignore,
}

/// Classification of one input event: quit and escape-down terminate; a key
/// event whose key the fixed table maps becomes a press with the key's
/// button index and the new pressed state; everything else is ignored.
pub open spec fn spec_classify(ev: InputEvent) -> EventAction {
    match ev {
        InputEvent::Quit => EventAction::Terminate,
        InputEvent::KeyDown { key } => if key == KEY_ESCAPE {
            EventAction::Terminate
        } else {
            match spec_key2btn(key) {
                Some(b) => EventAction::Press { button: b, pressed: true },
                None => EventAction::Ignore,
            }
        },
        InputEvent::KeyUp { key } => match spec_key2btn(key) {
            Some(b) => EventAction::Press { button: b, pressed: false },
            None => EventAction::Ignore,
        },
        InputEvent::Other => EventAction::Ignore,
    }
}

/// Classifies one input event.
pub fn classify_event(ev: &InputEvent) -> (r: EventAction)
    ensures
        r == spec_classify(*ev),
{
    match *ev {
        InputEvent::Quit => EventAction::Terminate,
        InputEvent::KeyDown { key } => if key == KEY_ESCAPE {
            EventAction::Terminate
        } else {
            match key2btn(key) {
                Some(b) => EventAction::Press { button: b, pressed: true },
                None => EventAction::Ignore,
            }
        },
        InputEvent::KeyUp { key } => match key2btn(key) {
            Some(b) => EventAction::Press { button: b, pressed: false },
            None => EventAction::Ignore,
        },
        InputEvent::Other => EventAction::Ignore,
    }
}

/// Whether some event of the batch terminates the loop.
pub open spec fn spec_terminates(events: Seq<InputEvent>) -> bool
    decreases events.len(),
{
    if events.len() == 0 {
        false
    } else if spec_classify(events[0]) is Terminate {
        true
    } else {
        spec_terminates(events.drop_first())
    }
}

/// The button state changes that one batch of events forwards to the
/// virtual machine, in event order, cut short at the first terminating
/// event: nothing after a quit is forwarded.
pub open spec fn spec_presses(events: Seq<InputEvent>) -> Seq<(usize, bool)>
    decreases events.len(),
{
    if events.len() == 0 {
        Seq::empty()
    } else {
        match spec_classify(events[0]) {
            EventAction::Terminate => Seq::empty(),
            EventAction::Press { button, pressed } => seq![(button, pressed)] + spec_presses(
                events.drop_first(),
            ),
            EventAction::Ignore => spec_presses(events.drop_first()),
        }
    }
}

/// A terminating event anywhere in the batch terminates the loop, and cuts
/// the forwarded presses short: only events strictly before it contribute.
pub proof fn lemma_quit_cuts_batch_short(events: Seq<InputEvent>, i: int)
    requires
        0 <= i < events.len(),
        spec_classify(events[i]) is Terminate,
    ensures
        spec_terminates(events),
        spec_presses(events) == spec_presses(events.take(i)),
    decreases events.len(),
{
    if spec_classify(events[0]) is Terminate {
        assert(spec_presses(events) =~= Seq::empty());
        if i == 0 {
            assert(spec_presses(events.take(0)) =~= Seq::empty());
        } else {
            assert(events.take(i)[0] == events[0]);
            assert(spec_presses(events.take(i)) =~= Seq::empty());
        }
    } else {
        lemma_quit_cuts_batch_short(events.drop_first(), i - 1);
        assert(events.take(i).drop_first() =~= events.drop_first().take(i - 1));
        assert(events.take(i)[0] == events[0]);
    }
}

/// Every button index a batch forwards comes out of the fixed key table,
/// so it lies in `0x0..=0xF` — the virtual machine is never handed a
/// button it does not have.
pub proof fn lemma_presses_in_range(events: Seq<InputEvent>, i: int)
    requires
        0 <= i < spec_presses(events).len(),
    ensures
        spec_presses(events)[i].0 <= 0xF,
    decreases events.len(),
{
    if events.len() > 0 {
        match spec_classify(events[0]) {
            EventAction::Terminate => {},
            EventAction::Press { button, pressed } => {
                if i > 0 {
                    lemma_presses_in_range(events.drop_first(), i - 1);
                }
            },
            EventAction::Ignore => {
                lemma_presses_in_range(events.drop_first(), i);
            },
        }
    }
}

/// The work one loop iteration decides on.
#[derive(Clone, Copy, Debug, PartialEq, Eq, Structural)]
pub struct FramePlan {
    /// How many virtual-machine instruction steps to run this iteration.
    pub ticks: usize,
    /// Whether to advance the virtual machine's timers, exactly once.
    pub advance_timers: bool,
    /// Whether to re-render the display this iteration.
    pub render: bool,
}

/// How many timer advancements one plan performs: one or none.
pub open spec fn spec_timer_steps(plan: FramePlan) -> int {
    if plan.advance_timers {
        1
    } else {
        0
    }
}

/// A plan the scheduler can emit: the instruction steps come in whole tick
/// budgets, exactly one budget per timer advancement.
pub open spec fn spec_plan_ok(plan: FramePlan, budget: int) -> bool {
    plan.ticks == if plan.advance_timers {
        budget
    } else {
        0int
    }
}

/// Total instruction steps over a run of frames.
pub open spec fn spec_total_ticks(plans: Seq<FramePlan>) -> int
    decreases plans.len(),
{
    if plans.len() == 0 {
        0
    } else {
        spec_total_ticks(plans.drop_last()) + plans.last().ticks
    }
}

/// Total timer advancements over a run of frames.
pub open spec fn spec_total_timer_steps(plans: Seq<FramePlan>) -> int
    decreases plans.len(),
{
    if plans.len() == 0 {
        0
    } else {
        spec_total_timer_steps(plans.drop_last()) + spec_timer_steps(plans.last())
    }
}

/// Over any run of frames the scheduler emits, exactly `budget` instruction
/// steps occur per timer advancement — the totals stay locked in that
/// ratio — and the timers advance at most once per iteration, so the timer
/// cadence can never outrun the frame count.
pub proof fn lemma_ticks_track_timer_cadence(plans: Seq<FramePlan>, budget: int)
    requires
        forall|i: int| 0 <= i < plans.len() ==> spec_plan_ok(#[trigger] plans[i], budget),
    ensures
        spec_total_ticks(plans) == budget * spec_total_timer_steps(plans),
        spec_total_timer_steps(plans) <= plans.len(),
    decreases plans.len(),
{
    if plans.len() == 0 {
        assert(budget * 0 == 0) by (nonlinear_arith);
    } else {
        lemma_ticks_track_timer_cadence(plans.drop_last(), budget);
        let s = spec_total_timer_steps(plans.drop_last());
        let t = spec_timer_steps(plans.last());
        assert(budget * (s + t) == budget * s + budget * t) by (nonlinear_arith);
        assert(plans[plans.len() - 1] == plans.last());
    }
}

/// The scheduler: the loop state, the reference point of the timer cadence,
/// and the two pacing constants.
pub struct FrameScheduler {
    /// Whether the loop is still running.
    pub state: LoopState,
    /// Monotonic timestamp, in milliseconds, of the last timer advancement
    /// (the reference point of the next elapsed-time check).
    pub last_tick: u64,
    /// Target duration of one frame, in milliseconds.
    pub frame_duration: u64,
    /// Instruction steps per frame.
    pub tick_budget: usize,
}

impl FrameScheduler {
    /// Well-formedness: the cadence needs a positive frame duration.
    pub open spec fn wf(self) -> bool {
        self.frame_duration > 0
    }

    /// Starts the scheduler in the running state, with the timer cadence
    /// anchored at `now`.
    pub fn new(now: u64, frame_duration: u64, tick_budget: usize) -> (r: FrameScheduler)
        requires
            frame_duration > 0,
        ensures
            r.wf(),
            r.state is Running,
            r.last_tick == now,
            r.frame_duration == frame_duration,
            r.tick_budget == tick_budget,
    {
        FrameScheduler { state: LoopState::Running, last_tick: now, frame_duration, tick_budget }
    }

    /// Classifies one batch of pending events and applies it to the loop
    /// state: returns the button state changes to forward, in order, cut
    /// short at the first terminating event; the loop is terminated exactly
    /// when the batch holds a terminating event. The timer cadence is
    /// untouched.
    pub fn process_events(&mut self, events: &Vec<InputEvent>) -> (presses: Vec<(usize, bool)>)
        requires
            old(self).state is Running,
        ensures
            presses@ == spec_presses(events@),
            final(self).state is Terminated <==> spec_terminates(events@),
            final(self).last_tick == old(self).last_tick,
            final(self).frame_duration == old(self).frame_duration,
            final(self).tick_budget == old(self).tick_budget,
    {
        let mut presses: Vec<(usize, bool)> = Vec::new();
        let mut i: usize = 0;
        let n = events.len();
        proof {
            assert(events@.skip(0) =~= events@);
            assert(presses@ + spec_presses(events@) =~= spec_presses(events@));
        }
        while i < n
            invariant
                i <= n,
                n == events@.len(),
                *self == (FrameScheduler { state: LoopState::Running, ..*old(self) }),
                spec_presses(events@) == presses@ + spec_presses(events@.skip(i as int)),
                spec_terminates(events@) == spec_terminates(events@.skip(i as int)),
            decreases n - i,
        {
            proof {
                assert(events@.skip(i as int).drop_first() =~= events@.skip(i + 1));
                assert(events@.skip(i as int)[0] == events@[i as int]);
            }
            match classify_event(&events[i]) {
                EventAction::Terminate => {
                    self.state = LoopState::Terminated;
                    proof {
                        assert(spec_presses(events@.skip(i as int)) =~= Seq::empty());
                        assert(spec_presses(events@) =~= presses@);
                    }
                    return presses;
                },
                EventAction::Press { button, pressed } => {
                    proof {
                        let rest = spec_presses(events@.skip(i + 1));
                        assert(presses@ + (seq![(button, pressed)] + rest) =~= presses@.push(
                            (button, pressed),
                        ) + rest);
                    }
                    presses.push((button, pressed));
                },
                EventAction::Ignore => {},
            }
            i = i + 1;
        }
        proof {
            assert(events@.skip(n as int) =~= Seq::<InputEvent>::empty());
            assert(spec_presses(events@) =~= presses@);
        }
        presses
    }

    /// Decides the frame work at time `now`, while the loop is running.
    /// When at least one frame duration has elapsed since the last timer
    /// advancement, the plan runs exactly the tick budget of instruction
    /// steps and advances the timers exactly once — never more, however
    /// much time has elapsed — and the cadence reference point becomes
    /// `now` itself, so leftover lateness is dropped, never accumulated.
    /// Otherwise the plan runs nothing. Either way the frame renders.
    pub fn begin_frame(&mut self, now: u64) -> (plan: FramePlan)
        requires
            old(self).state is Running,
            now >= old(self).last_tick,
        ensures
            plan.advance_timers <==> now - old(self).last_tick >= old(self).frame_duration,
            plan.advance_timers ==> plan.ticks == old(self).tick_budget && final(self).last_tick
                == now,
            !plan.advance_timers ==> plan.ticks == 0 && final(self).last_tick == old(
                self,
            ).last_tick,
            plan.render,
            spec_plan_ok(plan, old(self).tick_budget as int),
            final(self).state == old(self).state,
            final(self).frame_duration == old(self).frame_duration,
            final(self).tick_budget == old(self).tick_budget,
    {
        if now - self.last_tick >= self.frame_duration {
            self.last_tick = now;
            FramePlan { ticks: self.tick_budget, advance_timers: true, render: true }
        } else {
            FramePlan { ticks: 0, advance_timers: false, render: true }
        }
    }

    /// Whether the loop is still in its running state.
    pub fn is_running(&self) -> (r: bool)
        ensures
            r <==> self.state is Running,
    {
        match self.state {
            LoopState::Running => true,
            LoopState::Terminated => false,
        }
    }

    /// Decides one whole loop iteration at time `now`: first the pending
    /// events, then — only if none of them terminated the loop — the frame
    /// work. A terminating event cuts the iteration short at once: no
    /// instruction steps, no timer advancement and no rendering follow it,
    /// and the timer cadence is left untouched.
    pub fn run_frame(&mut self, now: u64, events: &Vec<InputEvent>) -> (out: (
        Vec<(usize, bool)>,
        FramePlan,
    ))
        requires
            old(self).state is Running,
            now >= old(self).last_tick,
        ensures
            out.0@ == spec_presses(events@),
            final(self).state is Terminated <==> spec_terminates(events@),
            final(self).frame_duration == old(self).frame_duration,
            final(self).tick_budget == old(self).tick_budget,
            spec_terminates(events@) ==> out.1 == (FramePlan {
                ticks: 0,
                advance_timers: false,
                render: false,
            }) && final(self).last_tick == old(self).last_tick,
            !spec_terminates(events@) ==> {
                &&& out.1.render
                &&& (out.1.advance_timers <==> now - old(self).last_tick >= old(
                    self,
                ).frame_duration)
                &&& (out.1.advance_timers ==> out.1.ticks == old(self).tick_budget
                    && final(self).last_tick == now)
                &&& (!out.1.advance_timers ==> out.1.ticks == 0
                    && final(self).last_tick == old(self).last_tick)
            },
            spec_plan_ok(out.1, old(self).tick_budget as int),
    {
        let presses = self.process_events(events);
        match self.state {
            LoopState::Terminated => (
                presses,
                FramePlan { ticks: 0, advance_timers: false, render: false },
            ),
            LoopState::Running => {
                let plan = self.begin_frame(now);
                (presses, plan)
            },
        }
    }

    /// How long the iteration should sleep to pace the loop: the remainder
    /// of the frame duration, or nothing when the iteration already took at
    /// least that long. Sleeping this amount caps the frame rate at the
    /// target rate without ever busy-spinning.
    pub fn pace(&self, frame_time: u64) -> (sleep: u64)
        ensures
            frame_time < self.frame_duration ==> frame_time + sleep == self.frame_duration,
            frame_time >= self.frame_duration ==> sleep == 0,
    {
        if frame_time < self.frame_duration {
            self.frame_duration - frame_time
        } else {
            0
        }
    }
}

} // verus!

