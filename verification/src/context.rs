//! Menu state machine over the shared UI context.
//!
//! The context is the one piece of state shared between the tick interrupt
//! (which runs the state machine) and the main loop (which only reads a
//! copy). Every index field is wrapped back into its range after every
//! mutation, so the reading side never observes a value outside
//! `[0, bound)`.

use crate::button::Event;
use vstd::prelude::*;

verus! {

/// Number of selectable performance modes.
pub const N_MODES: i8 = 1;

/// Number of entries in the settings menu.
pub const N_SETTINGS: i8 = 5;

/// Number of calibration breakpoints per DAC channel.
pub const N_CAL_LEVELS: i8 = 9;

/// Number of calibrated DAC channels.
pub const N_CAL_CHANNELS: i8 = 4;

/// The active UI mode.
#[derive(Clone, Copy, PartialEq, Eq, Structural, Debug)]
pub enum Menu {
    Main,
    Calibration,
    MidiLearn,
    Settings,
    SettingEdit,
}

/// The shared UI state: the active menu and the per-menu cursor positions.
#[derive(Clone, Copy, Debug)]
pub struct Context {
    pub menu: Menu,
    pub mode: i8,
    pub setting: i8,
    pub cal_level: i8,
    pub cal_channel: i8,
}

/// `x` wrapped into `[0, n)`; the Euclidean remainder.
pub open spec fn wrapped(x: int, n: int) -> int {
    x % n
}

/// Wrap an index into `[0, n)` after a step of at most one in either
/// direction.
fn wrap_index(x: i8, n: i8) -> (r: i8)
    requires
        0 < n,
        -1 <= x <= n,
    ensures
        r == wrapped(x as int, n as int),
        0 <= r < n,
{
    if x < 0 {
        proof {
            vstd::arithmetic::div_mod::lemma_fundamental_div_mod_converse_mod(
                x as int,
                n as int,
                -1,
                x + n,
            );
        }
        x + n
    } else if x >= n {
        proof {
            vstd::arithmetic::div_mod::lemma_fundamental_div_mod_converse_mod(
                x as int,
                n as int,
                1,
                x - n,
            );
        }
        x - n
    } else {
        proof {
            vstd::arithmetic::div_mod::lemma_fundamental_div_mod_converse_mod(
                x as int,
                n as int,
                0,
                x as int,
            );
        }
        x
    }
}

impl Context {
    /// Every cursor index is inside its range.
    pub open spec fn wf(self) -> bool {
        &&& 0 <= self.mode < N_MODES
        &&& 0 <= self.setting < N_SETTINGS
        &&& 0 <= self.cal_level < N_CAL_LEVELS
        &&& 0 <= self.cal_channel < N_CAL_CHANNELS
    }

    /// The startup context: cursors at their defaults, calibration level on
    /// the first adjustable breakpoint.
    pub fn new(default_menu: Menu) -> (c: Context)
        ensures
            c == (Context {
                menu: default_menu,
                mode: 0,
                setting: 0,
                cal_level: 1,
                cal_channel: 0,
            }),
            c.wf(),
    {
        Context { menu: default_menu, mode: 0, setting: 0, cal_level: 1, cal_channel: 0 }
    }

    /// The context after one tick that observed event `a` on button A and
    /// event `b` on button B.
    pub open spec fn spec_step(self, a: Event, b: Event) -> Context {
        match self.menu {
            Menu::Main => {
                let menu = if b is UpLong {
                    Menu::MidiLearn
                } else if a is UpLong {
                    Menu::Settings
                } else {
                    self.menu
                };
                let mode = (if a is Up { self.mode - 1 } else { self.mode as int })
                    + (if b is Up { 1int } else { 0int });
                Context { menu, mode: wrapped(mode, N_MODES as int) as i8, ..self }
            },
            Menu::Calibration => {
                let menu = if a is UpLong { Menu::Main } else { self.menu };
                let level = (if a is Up { self.cal_level - 1 } else { self.cal_level as int })
                    + (if b is Up { 1int } else { 0int });
                let channel = if b is UpLong { self.cal_channel + 1 } else { self.cal_channel as int };
                Context {
                    menu,
                    cal_level: wrapped(level, N_CAL_LEVELS as int) as i8,
                    cal_channel: wrapped(channel, N_CAL_CHANNELS as int) as i8,
                    ..self
                }
            },
            Menu::MidiLearn => {
                if a is UpLong {
                    Context { menu: Menu::Main, ..self }
                } else {
                    self
                }
            },
            Menu::Settings => {
                let menu = if b is UpLong {
                    Menu::SettingEdit
                } else if a is UpLong {
                    Menu::Main
                } else {
                    self.menu
                };
                let setting = (if a is Up { self.setting - 1 } else { self.setting as int })
                    + (if b is Up { 1int } else { 0int });
                Context { menu, setting: wrapped(setting, N_SETTINGS as int) as i8, ..self }
            },
            Menu::SettingEdit => {
                if a is UpLong {
                    Context { menu: Menu::Settings, ..self }
                } else {
                    self
                }
            },
        }
    }

    /// Run one tick of the menu state machine on the events of both
    /// buttons, read from the same tick.
    pub fn step(&mut self, a: Event, b: Event)
        requires
            old(self).wf(),
        ensures
            *final(self) == old(self).spec_step(a, b),
            final(self).wf(),
    {
        match self.menu {
            Menu::Main => {
                match a {
                    Event::Up => self.mode -= 1,
                    Event::UpLong => self.menu = Menu::Settings,
                    _ => (),
                }
                match b {
                    Event::Up => self.mode += 1,
                    Event::UpLong => self.menu = Menu::MidiLearn,
                    _ => (),
                }
                self.mode = wrap_index(self.mode, N_MODES);
            },
            Menu::Calibration => {
                match a {
                    Event::Up => self.cal_level -= 1,
                    Event::UpLong => self.menu = Menu::Main,
                    _ => (),
                }
                match b {
                    Event::Up => self.cal_level += 1,
                    Event::UpLong => self.cal_channel += 1,
                    _ => (),
                }
                self.cal_level = wrap_index(self.cal_level, N_CAL_LEVELS);
                self.cal_channel = wrap_index(self.cal_channel, N_CAL_CHANNELS);
            },
            Menu::MidiLearn => {
                match a {
                    Event::UpLong => self.menu = Menu::Main,
                    _ => (),
                }
            },
            Menu::Settings => {
                match a {
                    Event::Up => self.setting -= 1,
                    Event::UpLong => self.menu = Menu::Main,
                    _ => (),
                }
                match b {
                    Event::Up => self.setting += 1,
                    Event::UpLong => self.menu = Menu::SettingEdit,
                    _ => (),
                }
                self.setting = wrap_index(self.setting, N_SETTINGS);
            },
            Menu::SettingEdit => {
                match a {
                    Event::UpLong => self.menu = Menu::Settings,
                    _ => (),
                }
            },
        }
    }

    /// For every pair of button events, a tick keeps every cursor index
    /// inside its range: the reading side never sees one out of `[0, bound)`.
    pub proof fn lemma_step_preserves_wf(c: Context, a: Event, b: Event)
        requires
            c.wf(),
        ensures
            c.spec_step(a, b).wf(),
    {
    }
}

} // verus!
