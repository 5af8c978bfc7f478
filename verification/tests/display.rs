use airqual::device_state::DeviceMode;
use airqual::device_state::DisplayState;
use airqual::display::display_line;
use airqual::display::screen_for;
use airqual::display::ButtonDebouncer;
use airqual::display::ButtonPoll;
use airqual::display::DisplayAction;
use airqual::display::DisplayController;
use airqual::display::DisplayEvent;
use airqual::display::Screen;
use airqual::display::Tint;
use airqual::display::DISPLAY_TEXT_MAX;
use airqual::display::HOLD_MS;
use airqual::display::QUIET_MS;
use airqual::sensor_reading::PlantowerFrame;

fn reading(pm2_5_atm: u16, pm10_atm: u16, counts_0_3: u16) -> PlantowerFrame {
    let mut raw = [0u8; 32];
    raw[0] = 0x42;
    raw[1] = 0x4D;
    raw[12] = (pm2_5_atm >> 8) as u8;
    raw[13] = (pm2_5_atm & 0xFF) as u8;
    raw[14] = (pm10_atm >> 8) as u8;
    raw[15] = (pm10_atm & 0xFF) as u8;
    raw[16] = (counts_0_3 >> 8) as u8;
    raw[17] = (counts_0_3 & 0xFF) as u8;
    let sum: u32 = raw[..30].iter().map(|&b| b as u32).sum();
    raw[30] = (sum >> 8) as u8;
    raw[31] = (sum & 0xFF) as u8;
    PlantowerFrame::parse(&raw).expect("valid frame")
}

#[test]
fn the_windows_have_the_documented_length() {
    assert_eq!(QUIET_MS, 50);
    assert_eq!(HOLD_MS, 3000);
}

#[test]
fn a_new_button_has_the_screen_off() {
    let button = ButtonDebouncer::new();
    assert!(!button.screen_on);
    assert_eq!(button.last_toggle_ms, None);
}

#[test]
fn a_released_button_changes_nothing() {
    let mut button = ButtonDebouncer::new();
    let poll = button.sample(1000, false);
    assert_eq!(poll, ButtonPoll { toggle: None, wait_ms: 50 });
    assert_eq!(button, ButtonDebouncer::new());
}

#[test]
fn a_press_toggles_and_opens_the_hold_window() {
    let mut button = ButtonDebouncer::new();
    let poll = button.sample(1000, true);
    assert_eq!(poll, ButtonPoll { toggle: Some(true), wait_ms: 3050 });
    assert!(button.screen_on);
    assert_eq!(button.last_toggle_ms, Some(1000));
}

#[test]
fn two_presses_within_the_hold_window_toggle_once() {
    let mut button = ButtonDebouncer::new();
    assert_eq!(button.sample(1000, true).toggle, Some(true));
    assert_eq!(button.sample(1000, true).toggle, None);
    assert_eq!(button.sample(1050, true).toggle, None);
    assert_eq!(button.sample(3999, true), ButtonPoll { toggle: None, wait_ms: 50 });
    assert!(button.screen_on);
    assert_eq!(button.last_toggle_ms, Some(1000));
}

#[test]
fn a_press_after_the_hold_window_toggles_again() {
    let mut button = ButtonDebouncer::new();
    assert_eq!(button.sample(1000, true).toggle, Some(true));
    assert_eq!(button.sample(4000, true).toggle, Some(false));
    assert!(!button.screen_on);
    assert_eq!(button.last_toggle_ms, Some(4000));
    assert_eq!(button.sample(7050, true).toggle, Some(true));
}

#[test]
fn a_clock_that_steps_back_stays_in_the_hold_window() {
    let mut button = ButtonDebouncer::new();
    assert_eq!(button.sample(10_000, true).toggle, Some(true));
    assert_eq!(button.sample(5, true).toggle, None);
}

#[test]
fn the_hold_window_works_at_the_end_of_time() {
    let mut button = ButtonDebouncer::new();
    assert_eq!(button.sample(u64::MAX - 10, true).toggle, Some(true));
    assert_eq!(button.sample(u64::MAX, true).toggle, None);
    assert_eq!(button.sample(u64::MAX, false).toggle, None);
}

#[test]
fn a_new_controller_is_dark_and_warming_up() {
    let controller = DisplayController::new(30);
    assert!(!controller.powered_on());
    assert_eq!(controller.device().mode(), DeviceMode::WarmingUp(30));
    assert_eq!(controller.device().last_reading(), None);
}

#[test]
fn a_toggle_is_applied_exactly_once() {
    let mut controller = DisplayController::new(0);
    assert_eq!(controller.handle(DisplayEvent::Toggle(true)), DisplayAction::Backlight(true));
    assert!(controller.powered_on());
    assert_eq!(controller.handle(DisplayEvent::Toggle(true)), DisplayAction::Idle);
    assert!(controller.powered_on());
    assert_eq!(controller.handle(DisplayEvent::Toggle(false)), DisplayAction::Backlight(false));
    assert!(!controller.powered_on());
    assert_eq!(controller.handle(DisplayEvent::Toggle(false)), DisplayAction::Idle);
}

#[test]
fn a_toggle_to_off_on_a_dark_screen_does_nothing() {
    let mut controller = DisplayController::new(0);
    assert_eq!(controller.handle(DisplayEvent::Toggle(false)), DisplayAction::Idle);
    assert!(!controller.powered_on());
}

#[test]
fn a_dark_screen_consumes_readings_without_drawing() {
    let mut controller = DisplayController::new(0);
    let r = reading(1, 2, 3);
    assert_eq!(controller.handle(DisplayEvent::Cycle(Some(r))), DisplayAction::Idle);
    assert_eq!(controller.device().mode(), DeviceMode::Collecting);
    assert_eq!(controller.device().last_reading(), Some(r));
    assert!(controller.device().status_ok());
    assert!(!controller.powered_on());
}

#[test]
fn a_cycle_ticks_before_it_records() {
    let mut controller = DisplayController::new(1);
    controller.handle(DisplayEvent::Cycle(Some(reading(1, 1, 1))));
    assert_eq!(controller.device().mode(), DeviceMode::WarmingUp(0));
    assert_eq!(controller.device().last_reading(), None);
    let r = reading(2, 2, 2);
    controller.handle(DisplayEvent::Cycle(Some(r)));
    assert_eq!(controller.device().mode(), DeviceMode::Collecting);
    assert_eq!(controller.device().last_reading(), Some(r));
}

#[test]
fn a_lit_screen_shows_initializing_during_warmup() {
    let mut controller = DisplayController::new(2);
    controller.handle(DisplayEvent::Toggle(true));
    assert_eq!(
        controller.handle(DisplayEvent::Cycle(Some(reading(1, 2, 3)))),
        DisplayAction::Draw(Screen::Initializing)
    );
    assert_eq!(controller.handle(DisplayEvent::Cycle(None)), DisplayAction::Draw(Screen::Initializing));
    assert_eq!(controller.device().mode(), DeviceMode::WarmingUp(0));
    assert_eq!(controller.device().last_reading(), None);
}

#[test]
fn a_lit_screen_draws_fresh_then_stale_values() {
    let mut controller = DisplayController::new(0);
    controller.handle(DisplayEvent::Toggle(true));
    let r = reading(12, 34, 567);
    let fresh = controller.handle(DisplayEvent::Cycle(Some(r)));
    assert_eq!(fresh, DisplayAction::Draw(Screen::Values { reading: r, tint: Tint::Fresh }));
    let stale = controller.handle(DisplayEvent::Cycle(None));
    assert_eq!(stale, DisplayAction::Draw(Screen::Values { reading: r, tint: Tint::Stale }));
    assert_ne!(fresh, stale);
    let r2 = reading(13, 35, 568);
    assert_eq!(
        controller.handle(DisplayEvent::Cycle(Some(r2))),
        DisplayAction::Draw(Screen::Values { reading: r2, tint: Tint::Fresh })
    );
}

#[test]
fn a_lit_screen_without_values_shows_initializing() {
    let mut controller = DisplayController::new(0);
    controller.handle(DisplayEvent::Toggle(true));
    assert_eq!(controller.handle(DisplayEvent::Cycle(None)), DisplayAction::Draw(Screen::Initializing));
    assert_eq!(controller.device().mode(), DeviceMode::Collecting);
    assert!(!controller.device().status_ok());
}

#[test]
fn quick_presses_switch_the_backlight_once() {
    let mut button = ButtonDebouncer::new();
    let mut controller = DisplayController::new(0);
    let mut switched = 0;
    for now_ms in [1000u64, 1010, 1500, 3999] {
        if let Some(requested) = button.sample(now_ms, true).toggle {
            if controller.handle(DisplayEvent::Toggle(requested)) != DisplayAction::Idle {
                switched += 1;
            }
        }
    }
    assert_eq!(switched, 1);
    assert!(controller.powered_on());
}

#[test]
fn screen_for_follows_the_device_state() {
    let mut device = DisplayState::with_warmup(1);
    assert_eq!(screen_for(&device), Screen::Initializing);
    device.tick();
    device.tick();
    assert_eq!(screen_for(&device), Screen::Initializing);
    let r = reading(7, 8, 9);
    device.update(Some(r));
    assert_eq!(screen_for(&device), Screen::Values { reading: r, tint: Tint::Fresh });
    device.update(None);
    assert_eq!(screen_for(&device), Screen::Values { reading: r, tint: Tint::Stale });
}

#[test]
fn display_line_joins_three_numerals() {
    assert_eq!(display_line(&reading(12, 34, 567)).as_str(), "12 - 34 - 567");
}

#[test]
fn display_line_writes_numerals_without_padding() {
    assert_eq!(display_line(&reading(0, 0, 0)).as_str(), "0 - 0 - 0");
    assert_eq!(display_line(&reading(9, 10, 11)).as_str(), "9 - 10 - 11");
    assert_eq!(display_line(&reading(99, 100, 101)).as_str(), "99 - 100 - 101");
    assert_eq!(display_line(&reading(999, 1000, 1001)).as_str(), "999 - 1000 - 1001");
    assert_eq!(display_line(&reading(9999, 10000, 10001)).as_str(), "9999 - 10000 - 10001");
    assert_eq!(display_line(&reading(1020, 30405, 6070)).as_str(), "1020 - 30405 - 6070");
}

#[test]
fn display_line_is_longest_for_the_largest_values() {
    let line = display_line(&reading(65535, 65535, 65535));
    assert_eq!(line.as_str(), "65535 - 65535 - 65535");
    assert_eq!(line.as_str().len(), DISPLAY_TEXT_MAX);
}

#[test]
fn display_line_agrees_with_the_standard_formatting() {
    for value in [0u16, 1, 7, 10, 42, 100, 256, 1000, 4096, 9999, 10000, 32768, 65534, 65535] {
        let r = reading(value, value / 2, value.wrapping_mul(31));
        let expected = format!("{} - {} - {}", r.pm2_5_atm, r.pm10_atm, r.counts_0_3);
        assert_eq!(display_line(&r).as_str(), expected);
    }
}
