//! The volume indicator timer: how many frames the volume overlay has been up.

use vstd::prelude::*;

verus! {

/// How many frames the volume overlay stays up once it was armed.
pub const AUDIO_BAR_DURATION: usize = 10;

/// The counter after one more frame.
///
/// A resting counter rests. A running one counts up through
/// `AUDIO_BAR_DURATION`, and falls back to rest on the frame after.
pub open spec fn ticked(frames: nat) -> nat {
    if 1 <= frames <= AUDIO_BAR_DURATION {
        frames + 1
    } else {
        0
    }
}

/// The frame counter behind the volume overlay.
///
/// Zero means that the overlay is not shown. A positive value `n` means that it
/// is shown, and that this is the `n`-th frame since it was armed.
#[derive(Clone, Copy, Debug)]
pub struct VolumeTimer {
    frames: usize,
}

impl View for VolumeTimer {
    type V = nat;

    closed spec fn view(&self) -> nat {
        self.frames as nat
    }
}

impl VolumeTimer {
    #[verifier::type_invariant]
    spec fn in_range(self) -> bool {
        self.frames <= AUDIO_BAR_DURATION + 1
    }

    /// A timer at rest.
    pub fn new() -> (timer: VolumeTimer)
        ensures
            timer@ == 0,
    {
        VolumeTimer { frames: 0 }
    }

    /// Starts the countdown, or starts it over.
    pub fn arm(&mut self)
        ensures
            final(self)@ == 1,
    {
        self.frames = 1;
    }

    /// Accounts for one rendered frame.
    pub fn tick(&mut self)
        ensures
            final(self)@ == ticked(old(self)@),
    {
        if 1 <= self.frames && self.frames <= AUDIO_BAR_DURATION {
            self.frames = self.frames + 1;
        } else {
            self.frames = 0;
        }
    }

    /// Whether the volume overlay is to be shown.
    pub fn is_active(&self) -> (active: bool)
        ensures
            active == (self@ != 0),
    {
        self.frames != 0
    }

    /// The counter itself.
    pub fn frames(&self) -> (frames: usize)
        ensures
            frames == self@,
            frames <= AUDIO_BAR_DURATION + 1,
    {
        proof {
            use_type_invariant(self);
        }
        self.frames
    }
}

/// One call made on a timer.
#[derive(Clone, Copy, Debug, PartialEq, Eq, Structural)]
pub enum TimerCall {
    /// A call of `arm`.
    Arm,
    /// A call of `tick`.
    Tick,
}

/// The counter of a timer that started at rest and then took `calls` in order.
pub open spec fn counter_after(calls: Seq<TimerCall>) -> nat
    decreases calls.len(),
{
    if calls.len() == 0 {
        0
    } else {
        match calls.last() {
            TimerCall::Arm => 1,
            TimerCall::Tick => ticked(counter_after(calls.drop_last())),
        }
    }
}

/// Whether `calls` holds an `arm`.
pub open spec fn was_armed(calls: Seq<TimerCall>) -> bool {
    exists|i: int| 0 <= i < calls.len() && calls[i] == TimerCall::Arm
}

/// How many ticks `calls` ends with: the ticks since the most recent `arm`,
/// where there was one.
pub open spec fn ticks_since_arm(calls: Seq<TimerCall>) -> nat
    decreases calls.len(),
{
    if calls.len() == 0 {
        0
    } else {
        match calls.last() {
            TimerCall::Arm => 0,
            TimerCall::Tick => 1 + ticks_since_arm(calls.drop_last()),
        }
    }
}

/// The counter in closed form. Before the first `arm` it is 0. After an `arm`
/// and `k` further ticks it is `k + 1` as long as `k` does not exceed
/// `AUDIO_BAR_DURATION`, and 0 from then on.
pub proof fn lemma_counter_closed_form(calls: Seq<TimerCall>)
    ensures
        !was_armed(calls) ==> counter_after(calls) == 0,
        was_armed(calls) && ticks_since_arm(calls) <= AUDIO_BAR_DURATION ==> counter_after(calls)
            == ticks_since_arm(calls) + 1,
        was_armed(calls) && ticks_since_arm(calls) > AUDIO_BAR_DURATION ==> counter_after(calls)
            == 0,
    decreases calls.len(),
{
    if calls.len() > 0 {
        let last = calls.len() - 1;
        let before = calls.drop_last();
        lemma_counter_closed_form(before);
        match calls.last() {
            TimerCall::Arm => {
                assert(calls[last] == TimerCall::Arm);
            },
            TimerCall::Tick => {
                if was_armed(calls) {
                    let i = choose|i: int| 0 <= i < calls.len() && calls[i] == TimerCall::Arm;
                    assert(before[i] == TimerCall::Arm);
                }
                if was_armed(before) {
                    let i = choose|i: int| 0 <= i < before.len() && before[i] == TimerCall::Arm;
                    assert(calls[i] == TimerCall::Arm);
                }
            },
        }
    }
}

/// The counter is 0 in two situations and no other: no `arm` was called yet,
/// or more than `AUDIO_BAR_DURATION` ticks have passed since the most recent
/// one. It first returns to 0 on tick `AUDIO_BAR_DURATION + 1`.
pub proof fn lemma_counter_rests(calls: Seq<TimerCall>)
    ensures
        counter_after(calls) == 0 <==> !was_armed(calls) || ticks_since_arm(calls)
            >= AUDIO_BAR_DURATION + 1,
        counter_after(calls) <= AUDIO_BAR_DURATION + 1,
{
    lemma_counter_closed_form(calls);
}

/// Arming starts the countdown over from 1, whatever came before.
pub proof fn lemma_rearm_restarts(calls: Seq<TimerCall>)
    ensures
        counter_after(calls.push(TimerCall::Arm)) == 1,
        was_armed(calls.push(TimerCall::Arm)),
        ticks_since_arm(calls.push(TimerCall::Arm)) == 0,
{
    let armed = calls.push(TimerCall::Arm);
    assert(armed[calls.len() as int] == TimerCall::Arm);
}

/// One `arm` and then `ticks` ticks.
pub open spec fn armed_then_ticked(ticks: nat) -> Seq<TimerCall> {
    Seq::new(
        ticks + 1,
        |i: int|
            if i == 0 {
                TimerCall::Arm
            } else {
                TimerCall::Tick
            },
    )
}

/// How long the overlay stays up. A frame reads the timer before it ticks it,
/// so the frame that follows `ticks` earlier frames finds the timer as
/// `ticks` ticks have left it: running up to and including
/// `AUDIO_BAR_DURATION` ticks after the `arm`, at rest from then on.
pub proof fn lemma_overlay_frames(ticks: nat)
    ensures
        counter_after(armed_then_ticked(ticks)) == (if ticks <= AUDIO_BAR_DURATION {
            ticks + 1
        } else {
            0
        }),
    decreases ticks,
{
    let calls = armed_then_ticked(ticks);
    if ticks == 0 {
        assert(calls.last() == TimerCall::Arm);
    } else {
        lemma_overlay_frames((ticks - 1) as nat);
        assert(calls.drop_last() == armed_then_ticked((ticks - 1) as nat));
        assert(calls.last() == TimerCall::Tick);
    }
}

} // verus!
