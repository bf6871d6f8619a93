use vstd::prelude::*;

use crate::frame::{LedStates, frame, get_led_states};
use crate::glyph::DIGITS;

verus! {

/// How long each digit stays on display, in milliseconds.
pub const FRAME_INTERVAL_MS: u32 = 500;

/// What the sequencer waits for next.
#[derive(Clone, Copy, Debug, PartialEq, Eq, Structural)]
pub enum Phase {
    /// The current digit's frame is to be sent to the strip.
    Show,
    /// The frame was sent; the display interval is to elapse.
    Pause,
}

/// What the host is asked to do next.
#[derive(Clone, Copy, Debug)]
pub enum Action {
    /// Send this frame to the strip, in index order.
    Transmit(LedStates),
    /// Block for this many milliseconds.
    Wait(u32),
}

/// What the host reports back once an action is done.
#[derive(Clone, Copy, Debug, PartialEq, Eq, Structural)]
pub enum Event {
    Transmitted,
    Waited,
}

/// The animation state: the digit on display and the step of its cycle.
#[derive(Clone, Copy, Debug, PartialEq, Eq, Structural)]
pub struct Sequencer {
    pub digit: u8,
    pub phase: Phase,
}

/// The digit that follows `d` in the cycle 0, 1, ..., 9, 0, ...
pub open spec fn successor(d: int) -> int {
    (d + 1) % (DIGITS as int)
}

/// The state after `e` arrives in state `s`. An event that does not answer
/// the pending action leaves the state as it is.
pub open spec fn after_event(s: Sequencer, e: Event) -> Sequencer {
    match (s.phase, e) {
        (Phase::Show, Event::Transmitted) => Sequencer { digit: s.digit, phase: Phase::Pause },
        (Phase::Pause, Event::Waited) => Sequencer {
            digit: successor(s.digit as int) as u8,
            phase: Phase::Show,
        },
        _ => s,
    }
}

/// The state after one full cycle: transmit, then wait.
pub open spec fn after_cycle(s: Sequencer) -> Sequencer {
    after_event(after_event(s, Event::Transmitted), Event::Waited)
}

/// The state after `n` full cycles from the start.
pub open spec fn after_cycles(n: nat) -> Sequencer
    decreases n,
{
    if n == 0 {
        Sequencer { digit: 0, phase: Phase::Show }
    } else {
        after_cycle(after_cycles((n - 1) as nat))
    }
}

/// The digit that follows `digit` in the cycle.
pub fn next_digit(digit: u8) -> (r: u8)
    requires
        digit < DIGITS,
    ensures
        r == successor(digit as int),
{
    if digit + 1 == DIGITS {
        0
    } else {
        digit + 1
    }
}

impl Sequencer {
    /// The state holds a digit that has a glyph.
    pub open spec fn wf(&self) -> bool {
        self.digit < DIGITS
    }

    /// The initial state: digit 0, about to be shown.
    pub fn new() -> (s: Sequencer)
        ensures
            s == after_cycles(0),
            s.wf(),
    {
        Sequencer { digit: 0, phase: Phase::Show }
    }

    /// The action that the host performs next: the current digit's frame,
    /// or the display interval once that frame is out.
    pub fn next_action(&self) -> (a: Action)
        requires
            self.wf(),
        ensures
            self.phase == Phase::Show ==> (a matches Action::Transmit(states) && states@ == frame(
                self.digit as int,
            )),
            self.phase == Phase::Pause ==> a == Action::Wait(FRAME_INTERVAL_MS),
    {
        match self.phase {
            Phase::Show => Action::Transmit(get_led_states(self.digit)),
            Phase::Pause => Action::Wait(FRAME_INTERVAL_MS),
        }
    }

    /// Takes in the report that an action is done.
    pub fn on_event(&mut self, e: Event)
        requires
            old(self).wf(),
        ensures
            *final(self) == after_event(*old(self), e),
            final(self).wf(),
    {
        match (self.phase, e) {
            (Phase::Show, Event::Transmitted) => {
                self.phase = Phase::Pause;
            },
            (Phase::Pause, Event::Waited) => {
                self.digit = next_digit(self.digit);
                self.phase = Phase::Show;
            },
            _ => {},
        }
    }
}

/// After `n` full cycles from the start, digit `n mod 10` is about to be shown:
/// the digits come in the order 0, 1, ..., 9, 0, 1, ... without end.
pub proof fn cycles_visit_digits_in_order(n: nat)
    ensures
        after_cycles(n) == (Sequencer { digit: (n % 10) as u8, phase: Phase::Show }),
    decreases n,
{
    if n > 0 {
        cycles_visit_digits_in_order((n - 1) as nat);
        assert(((n - 1) as nat % 10 + 1) % 10 == n % 10);
    }
}

/// The digit changes only when the wait that follows a transmission is reported.
pub proof fn digit_advances_only_after_wait(s: Sequencer, e: Event)
    requires
        s.wf(),
    ensures
        after_event(s, e).digit != s.digit ==> s.phase == Phase::Pause && e == Event::Waited,
        s.phase == Phase::Pause && e == Event::Waited ==> after_event(s, e).digit == successor(
            s.digit as int,
        ),
{
}

/// Ten full cycles bring the sequencer back to the state it was in.
pub proof fn full_pass_returns_to_start(n: nat)
    ensures
        after_cycles(n + 10) == after_cycles(n),
{
    cycles_visit_digits_in_order(n);
    cycles_visit_digits_in_order(n + 10);
}

} // verus!
