//! Main-loop panel decisions: how the active menu routes MIDI, drives the
//! breathing animation and picks the displayed bit pattern.

use crate::context::Context;
use crate::context::Menu;
use crate::display::BinaryDisplay;
use vstd::prelude::*;

verus! {

/// Where an incoming MIDI message goes while a menu is active.
#[derive(Clone, Copy, PartialEq, Eq, Debug)]
pub enum MidiRoute {
    /// Feed the performance engine.
    Engine,
    /// Feed the MIDI-learn handler.
    Learn,
    /// Drop it: the menu intercepts MIDI.
    Ignored,
}

/// How the active menu routes incoming MIDI: calibration intercepts it,
/// the learn menu consumes it, every other menu plays it.
pub fn midi_route(menu: Menu) -> (r: MidiRoute)
    ensures
        r == (match menu {
            Menu::Calibration => MidiRoute::Ignored,
            Menu::MidiLearn => MidiRoute::Learn,
            _ => MidiRoute::Engine,
        }),
{
    match menu {
        Menu::Calibration => MidiRoute::Ignored,
        Menu::MidiLearn => MidiRoute::Learn,
        _ => MidiRoute::Engine,
    }
}

/// Retune the breathing animation when the active menu changed: steady in
/// the main menu, a fast shallow pulse in calibration, slow deep pulses in
/// the learn and settings menus. With no menu change the display is left
/// alone.
pub fn apply_menu_breathing(display: &mut BinaryDisplay, last_menu: Menu, menu: Menu)
    requires
        old(display).wf(),
    ensures
        final(display).wf(),
        last_menu == menu ==> *final(display) == *old(display),
        last_menu != menu ==> *final(display) == (match menu {
            Menu::Main => BinaryDisplay {
                is_breathing: false,
                breathing_amplitude: 0,
                off_level: 0,
                on_level: 65535,
                ..*old(display)
            },
            Menu::Calibration => BinaryDisplay {
                is_breathing: true,
                frequency_mhz: 7000,
                breathing_amplitude: 15000,
                off_level: 4000,
                on_level: 46535,
                ..*old(display)
            },
            Menu::MidiLearn => BinaryDisplay {
                is_breathing: true,
                frequency_mhz: 2000,
                breathing_amplitude: 10000,
                off_level: 4000,
                on_level: 51535,
                ..*old(display)
            },
            Menu::Settings => BinaryDisplay {
                is_breathing: true,
                frequency_mhz: 500,
                breathing_amplitude: 20000,
                off_level: 4000,
                on_level: 41535,
                ..*old(display)
            },
            Menu::SettingEdit => BinaryDisplay {
                is_breathing: true,
                frequency_mhz: 1000,
                breathing_amplitude: 20000,
                off_level: 4000,
                on_level: 41535,
                ..*old(display)
            },
        }),
{
    if last_menu == menu {
        return ;
    }
    match menu {
        Menu::Main => display.disable_breathing(),
        Menu::Calibration => display.enable_breathing(7000, 15000, 4000),
        Menu::MidiLearn => display.enable_breathing(2000, 10000, 4000),
        Menu::Settings => display.enable_breathing(500, 20000, 4000),
        Menu::SettingEdit => display.enable_breathing(1000, 20000, 4000),
    }
}

/// The bit pattern the display shows for the current context: the cursor
/// in the calibration and settings menus (one-based for settings), blank
/// elsewhere.
pub fn menu_display_value(context: &Context) -> (v: u8)
    requires
        context.wf(),
    ensures
        v == (match context.menu {
            Menu::Calibration => context.cal_level as u8,
            Menu::Settings => (context.setting + 1) as u8,
            _ => 0u8,
        }),
{
    match context.menu {
        Menu::Calibration => context.cal_level as u8,
        Menu::Settings => (context.setting + 1) as u8,
        _ => 0,
    }
}

} // verus!
