//! The decisions of the driver loop: what one cycle of the execution thread
//! does with the machine, what it publishes, how long it rests, and how the
//! presentation side takes a published frame.

use crate::instruction::decoded;
use crate::interpreter::VM;
use crate::keypad::Keys;
use crate::pixel::Pixel;
use crate::screen::{grid, Display};
use vstd::prelude::*;

verus! {

/// What the execution thread does with the rest of a cycle.
#[derive(Clone, Copy, PartialEq, Eq, Structural, Debug)]
pub enum Pace {
    /// The step took no longer than its period: rest for this many
    /// nanoseconds, which may be none.
    Sleep(u64),
    /// The step took longer than its period: the clock runs slow. Nothing is
    /// made up for; the next step follows at once.
    Overrun,
}

/// Decides how a cycle ends, from the length of the period and the time the
/// step took, both in nanoseconds.
pub fn pace(period: u64, elapsed: u64) -> (p: Pace)
    ensures
        elapsed <= period ==> p == Pace::Sleep((period - elapsed) as u64),
        elapsed > period ==> p == Pace::Overrun,
{
    match period.checked_sub(elapsed) {
        Some(rest) => Pace::Sleep(rest),
        None => Pace::Overrun,
    }
}

/// What one cycle hands to the outside.
pub struct Outcome {
    /// The display to publish, where the step handed one out.
    pub frame: Option<Display>,
    /// Whether the tone is to sound from now on.
    pub buzzer: bool,
}

/// One cycle of the execution thread, without its waiting: steps the machine
/// with the latest key snapshot and `random` as the byte that `Rand` uses,
/// and says what to publish and whether the buzzer sounds.
pub fn cycle_with(vm: &mut VM, keys: &Keys, random: u8) -> (out: Outcome)
    requires
        old(vm)@.wf(),
        old(vm)@.can_step(keys@),
    ensures
        final(vm)@ == old(vm)@.stepped(keys@, random),
        final(vm)@.wf(),
        out.frame is Some <==> decoded(old(vm)@.opcode())->Some_0.emits(),
        out.frame matches Some(d) ==> grid(d) == final(vm)@.display,
        out.buzzer == final(vm)@.buzzer_active(),
{
    let frame = vm.step_with(keys, random);
    let buzzer = vm.buzzer_active();
    Outcome { frame, buzzer }
}

/// One cycle of the execution thread, as [`cycle_with`], with the random
/// byte drawn from the thread's random number generator.
pub fn cycle(vm: &mut VM, keys: &Keys) -> (out: Outcome)
    requires
        old(vm)@.wf(),
        old(vm)@.can_step(keys@),
    ensures
        exists|random: u8| final(vm)@ == old(vm)@.stepped(keys@, random),
        !decoded(old(vm)@.opcode())->Some_0.uses_random() ==> final(vm)@ == old(vm)@.stepped(
            keys@,
            0,
        ),
        final(vm)@.wf(),
        out.frame is Some <==> decoded(old(vm)@.opcode())->Some_0.emits(),
        out.frame matches Some(d) ==> grid(d) == final(vm)@.display,
        out.buzzer == final(vm)@.buzzer_active(),
{
    let frame = vm.step(keys);
    let buzzer = vm.buzzer_active();
    Outcome { frame, buzzer }
}

/// The single slot through which frames reach the presentation side: the
/// latest frame, and whether it has been taken. Publishing overwrites what
/// was there, taken or not; frames are never queued.
#[derive(Clone, Copy, PartialEq, Eq, Debug)]
pub struct FrameSlot {
    /// The latest frame.
    pub frame: Display,
    /// Whether the presentation side has taken it.
    pub consumed: bool,
}

impl FrameSlot {
    /// The slot before anything was published: a blank frame, not yet taken.
    pub fn new() -> (slot: FrameSlot)
        ensures
            grid(slot.frame) == crate::model::blank(),
            !slot.consumed,
    {
        let slot = FrameSlot { frame: [[Pixel::Black; 64]; 32], consumed: false };
        assert(grid(slot.frame) =~~= crate::model::blank());
        slot
    }

    /// The slot after `frame` was published.
    pub fn publish(frame: Display) -> (slot: FrameSlot)
        ensures
            slot.frame == frame,
            !slot.consumed,
    {
        FrameSlot { frame, consumed: false }
    }

    /// The slot after a cycle: the frame that the cycle handed out, or the
    /// slot as it was where it handed out none.
    pub fn after(self, update: Option<Display>) -> (slot: FrameSlot)
        ensures
            update matches Some(frame) ==> slot.frame == frame && !slot.consumed,
            update is None ==> slot == self,
    {
        match update {
            Some(frame) => FrameSlot::publish(frame),
            None => self,
        }
    }

    /// Takes the frame for presentation: hands it out where it has not been
    /// taken before, and marks the slot as taken either way.
    pub fn take(self) -> (r: (Option<Display>, FrameSlot))
        ensures
            !self.consumed ==> r.0 == Some(self.frame),
            self.consumed ==> r.0 is None,
            r.1.frame == self.frame,
            r.1.consumed,
    {
        if self.consumed {
            (None, self)
        } else {
            (Some(self.frame), FrameSlot { frame: self.frame, consumed: true })
        }
    }
}

} // verus!
