//! Debouncing button state machine with long-press detection.
//!
//! The electrical level is sampled once per tick (outside this crate) and
//! handed to [`Button::poll`] as a plain boolean, `true` meaning the
//! active level. Each poll emits exactly one [`Event`]; events are never
//! queued, so a consumer sees only the latest event per tick.

use vstd::prelude::*;

verus! {

/// The event reported for one tick.
#[derive(Clone, Copy, PartialEq, Eq, Debug)]
pub enum Event {
    /// The button is not pressed and nothing happened this tick.
    Unpressed,
    /// The button is held, with no edge this tick.
    Pressed,
    /// The level changed from inactive to active this tick.
    Down,
    /// The press has been held past the long-press threshold; emitted once per press.
    DownLong,
    /// The level changed from active to inactive after a short press.
    Up,
    /// The level changed from active to inactive after a long press.
    UpLong,
}

/// Debouncing state for one physical button.
#[derive(Clone, Copy, Debug)]
pub struct Button {
    /// Number of ticks after which a held press counts as long.
    pub long_press_threshold: u32,
    /// The level sampled on the previous tick, `true` = active.
    pub active: bool,
    /// Ticks elapsed since the press began.
    pub polls_since_pressed: u32,
    /// Set once the current press has been reported as long.
    pub is_long_press: bool,
    /// Swallow all events until one active-to-inactive transition completes.
    pub ignore_next: bool,
}

impl Button {
    /// The state after one poll reading `level` (`true` = active level).
    pub open spec fn spec_step(self, level: bool) -> Button {
        if self.ignore_next {
            Button {
                active: level,
                ignore_next: !(self.active && !level),
                ..self
            }
        } else {
            let counted = Button {
                active: level,
                polls_since_pressed: if self.polls_since_pressed == u32::MAX {
                    u32::MAX
                } else {
                    (self.polls_since_pressed + 1) as u32
                },
                ..self
            };
            if !self.active && level {
                Button { polls_since_pressed: 0, is_long_press: false, ..counted }
            } else if self.active && level && counted.polls_since_pressed
                > self.long_press_threshold && !self.is_long_press {
                Button { is_long_press: true, ..counted }
            } else {
                counted
            }
        }
    }

    /// The event emitted by one poll reading `level`.
    pub open spec fn spec_event(self, level: bool) -> Event {
        if self.ignore_next {
            Event::Unpressed
        } else if !self.active && level {
            Event::Down
        } else if self.active && !level {
            if self.is_long_press {
                Event::UpLong
            } else {
                Event::Up
            }
        } else if self.active && level {
            let counted: u32 = if self.polls_since_pressed == u32::MAX {
                u32::MAX
            } else {
                (self.polls_since_pressed + 1) as u32
            };
            if counted > self.long_press_threshold && !self.is_long_press {
                Event::DownLong
            } else {
                Event::Pressed
            }
        } else {
            Event::Unpressed
        }
    }

    /// A fresh button, initially inactive. `None` for the threshold
    /// disables long-press detection.
    pub fn new(long_press_threshold: Option<u32>) -> (b: Button)
        ensures
            b.long_press_threshold == match long_press_threshold {
                Some(t) => t,
                None => u32::MAX,
            },
            !b.active,
            b.polls_since_pressed == 0,
            !b.is_long_press,
            !b.ignore_next,
    {
        Button {
            long_press_threshold: match long_press_threshold {
                Some(t) => t,
                None => u32::MAX,
            },
            active: false,
            polls_since_pressed: 0,
            is_long_press: false,
            ignore_next: false,
        }
    }

    /// Advance the state machine by one tick. `level` is the electrical
    /// level sampled this tick, `true` meaning active.
    pub fn poll(&mut self, level: bool) -> (e: Event)
        ensures
            *final(self) == old(self).spec_step(level),
            e == old(self).spec_event(level),
    {
        let last_active = self.active;
        self.active = level;

        if self.ignore_next {
            if last_active && !level {
                self.ignore_next = false;
            }
            return Event::Unpressed;
        }

        self.polls_since_pressed = self.polls_since_pressed.saturating_add(1);

        if !last_active && level {
            self.polls_since_pressed = 0;
            self.is_long_press = false;
            Event::Down
        } else if last_active && !level {
            if self.is_long_press {
                Event::UpLong
            } else {
                Event::Up
            }
        } else if last_active && level {
            if self.polls_since_pressed > self.long_press_threshold && !self.is_long_press {
                self.is_long_press = true;
                Event::DownLong
            } else {
                Event::Pressed
            }
        } else {
            Event::Unpressed
        }
    }

    /// The state after `n` further ticks during which the level stays active.
    pub open spec fn hold(s: Button, n: nat) -> Button
        decreases n,
    {
        if n == 0 {
            s
        } else {
            Button::hold(s, (n - 1) as nat).spec_step(true)
        }
    }

    /// While a press is held, the counter counts the ticks and the
    /// long-press flag is set exactly when the counter has passed the
    /// threshold.
    pub proof fn lemma_hold_state(s: Button, n: nat)
        requires
            s.active,
            !s.is_long_press,
            !s.ignore_next,
            s.polls_since_pressed == 0,
            s.long_press_threshold < u32::MAX,
            n <= u32::MAX,
        ensures
            Button::hold(s, n).active,
            !Button::hold(s, n).ignore_next,
            Button::hold(s, n).long_press_threshold == s.long_press_threshold,
            Button::hold(s, n).polls_since_pressed == n,
            Button::hold(s, n).is_long_press <==> n > s.long_press_threshold,
        decreases n,
    {
        if n > 0 {
            Button::lemma_hold_state(s, (n - 1) as nat);
        }
    }

    /// A press held from its start emits `DownLong` on the tick exactly one
    /// past the threshold, and on no other tick of that press: neither
    /// before it, nor on any later tick while the press continues.
    ///
    /// `s` is the state just after the `Down` tick; the `k`-th later tick
    /// (counting from 1) still reads the active level.
    pub proof fn lemma_down_long_exactly_once(s: Button, k: nat)
        requires
            s.active,
            !s.is_long_press,
            !s.ignore_next,
            s.polls_since_pressed == 0,
            s.long_press_threshold < u32::MAX,
            1 <= k <= u32::MAX,
        ensures
            Button::hold(s, (k - 1) as nat).spec_event(true) == Event::DownLong
                <==> k == s.long_press_threshold + 1,
    {
        Button::lemma_hold_state(s, (k - 1) as nat);
    }

    /// While the swallow flag is set every event reads as `Unpressed`, and
    /// the flag clears exactly on an active-to-inactive transition.
    pub proof fn lemma_ignore_suppresses(s: Button, level: bool)
        requires
            s.ignore_next,
        ensures
            s.spec_event(level) == Event::Unpressed,
            s.spec_step(level).ignore_next == !(s.active && !level),
    {
    }

    /// After the swallowed press is released, normal reporting resumes: the
    /// release itself stays silent and the next press reads `Down` again.
    pub proof fn lemma_ignore_then_resume(s: Button)
        requires
            s.ignore_next,
            s.active,
        ensures
            s.spec_event(false) == Event::Unpressed,
            !s.spec_step(false).ignore_next,
            s.spec_step(false).spec_event(true) == Event::Down,
    {
    }

    /// Swallow all events until the next active-to-inactive transition.
    pub fn ignore_next_press(&mut self)
        ensures
            *final(self) == (Button { ignore_next: true, ..*old(self) }),
    {
        self.ignore_next = true;
    }
}

/// The calibration-entry gesture check, run once at startup: with both
/// buttons already held active, swallow the press on each (so releasing it
/// emits nothing) and report that calibration should open.
pub fn do_calibrate(
    button_a: &mut Button,
    button_b: &mut Button,
    a_active: bool,
    b_active: bool,
) -> (r: bool)
    ensures
        r == (a_active && b_active),
        r ==> *final(button_a) == (Button { ignore_next: true, ..*old(button_a) })
            && *final(button_b) == (Button { ignore_next: true, ..*old(button_b) }),
        !r ==> *final(button_a) == *old(button_a) && *final(button_b) == *old(button_b),
{
    if a_active && b_active {
        button_a.ignore_next_press();
        button_b.ignore_next_press();
        true
    } else {
        false
    }
}

} // verus!
