//! Menu state machine: transitions and index wraparound in every menu.

use midi_cv::{menu_display_value, midi_route, Context, Event, Menu, MidiRoute};

#[test]
fn startup_context_defaults() {
    let c = Context::new(Menu::Main);
    assert_eq!(c.menu, Menu::Main);
    assert_eq!(c.mode, 0);
    assert_eq!(c.setting, 0);
    assert_eq!(c.cal_level, 1);
    assert_eq!(c.cal_channel, 0);
}

#[test]
fn main_menu_mode_wraps_with_single_mode() {
    let mut c = Context::new(Menu::Main);
    c.step(Event::Up, Event::Unpressed);
    assert_eq!(c.mode, 0);
    c.step(Event::Unpressed, Event::Up);
    assert_eq!(c.mode, 0);
}

#[test]
fn main_menu_long_presses_enter_submenus() {
    let mut c = Context::new(Menu::Main);
    c.step(Event::UpLong, Event::Unpressed);
    assert_eq!(c.menu, Menu::Settings);

    let mut c = Context::new(Menu::Main);
    c.step(Event::Unpressed, Event::UpLong);
    assert_eq!(c.menu, Menu::MidiLearn);
}

#[test]
fn settings_menu_cursor_wraps_modulo_five() {
    let mut c = Context::new(Menu::Settings);
    c.step(Event::Up, Event::Unpressed);
    assert_eq!(c.setting, 4);
    for _ in 0..5 {
        c.step(Event::Unpressed, Event::Up);
    }
    assert_eq!(c.setting, 4);
    c.step(Event::Unpressed, Event::Up);
    assert_eq!(c.setting, 0);
}

#[test]
fn settings_menu_transitions() {
    let mut c = Context::new(Menu::Settings);
    c.step(Event::Unpressed, Event::UpLong);
    assert_eq!(c.menu, Menu::SettingEdit);
    c.step(Event::UpLong, Event::Unpressed);
    assert_eq!(c.menu, Menu::Settings);
    c.step(Event::UpLong, Event::Unpressed);
    assert_eq!(c.menu, Menu::Main);
}

#[test]
fn calibration_level_wraps_modulo_nine() {
    let mut c = Context::new(Menu::Calibration);
    assert_eq!(c.cal_level, 1);
    c.step(Event::Up, Event::Unpressed);
    assert_eq!(c.cal_level, 0);
    c.step(Event::Up, Event::Unpressed);
    assert_eq!(c.cal_level, 8);
    for _ in 0..3 {
        c.step(Event::Unpressed, Event::Up);
    }
    assert_eq!(c.cal_level, 2);
}

#[test]
fn calibration_channel_wraps_modulo_four() {
    let mut c = Context::new(Menu::Calibration);
    for expected in [1, 2, 3, 0, 1] {
        c.step(Event::Unpressed, Event::UpLong);
        assert_eq!(c.cal_channel, expected);
    }
    c.step(Event::UpLong, Event::Unpressed);
    assert_eq!(c.menu, Menu::Main);
}

#[test]
fn midi_learn_exits_on_long_press_a_only() {
    let mut c = Context::new(Menu::MidiLearn);
    c.step(Event::Up, Event::Up);
    assert_eq!(c.menu, Menu::MidiLearn);
    c.step(Event::Unpressed, Event::UpLong);
    assert_eq!(c.menu, Menu::MidiLearn);
    c.step(Event::UpLong, Event::Unpressed);
    assert_eq!(c.menu, Menu::Main);
}

#[test]
fn indices_stay_in_range_over_random_walk() {
    let events = [
        Event::Unpressed,
        Event::Pressed,
        Event::Down,
        Event::DownLong,
        Event::Up,
        Event::UpLong,
    ];
    let mut c = Context::new(Menu::Main);
    // a deterministic jumble of both buttons across all menus
    let mut x: u32 = 12345;
    for _ in 0..5000 {
        x = x.wrapping_mul(1103515245).wrapping_add(12345);
        let a = events[(x >> 8) as usize % 6];
        let b = events[(x >> 16) as usize % 6];
        c.step(a, b);
        assert!(0 <= c.mode && c.mode < 1);
        assert!(0 <= c.setting && c.setting < 5);
        assert!(0 <= c.cal_level && c.cal_level < 9);
        assert!(0 <= c.cal_channel && c.cal_channel < 4);
    }
}

#[test]
fn midi_routing_per_menu() {
    assert_eq!(midi_route(Menu::Main), MidiRoute::Engine);
    assert_eq!(midi_route(Menu::Calibration), MidiRoute::Ignored);
    assert_eq!(midi_route(Menu::MidiLearn), MidiRoute::Learn);
    assert_eq!(midi_route(Menu::Settings), MidiRoute::Engine);
    assert_eq!(midi_route(Menu::SettingEdit), MidiRoute::Engine);
}

#[test]
fn display_value_per_menu() {
    let mut c = Context::new(Menu::Main);
    assert_eq!(menu_display_value(&c), 0);
    c.menu = Menu::Calibration;
    c.cal_level = 5;
    assert_eq!(menu_display_value(&c), 5);
    c.menu = Menu::Settings;
    c.setting = 2;
    assert_eq!(menu_display_value(&c), 3);
    c.menu = Menu::SettingEdit;
    assert_eq!(menu_display_value(&c), 0);
    c.menu = Menu::MidiLearn;
    assert_eq!(menu_display_value(&c), 0);
}
