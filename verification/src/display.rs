//! The display consumer: the button that asks for the screen to be
//! switched, the controller that applies such requests and decides what a
//! reading puts on the screen, and the text of a reading.

use crate::device_state::DeviceMode;
use crate::device_state::DeviceView;
use crate::device_state::DisplayState;
use crate::sensor_reading::PlantowerFrame;
use crate::text_line::decimal;
use crate::text_line::lemma_decimal_u16;
use crate::text_line::TextLine;
use vstd::prelude::*;

verus! {

/// Pause between two looks at the button, and after each handled event,
/// in milliseconds.
pub const QUIET_MS: u64 = 50;

/// Time after a toggle during which the button is not looked at again,
/// in milliseconds.
pub const HOLD_MS: u64 = 3000;

/// Longest text that `display_line` produces.
pub const DISPLAY_TEXT_MAX: usize = 21;

/// The button's side of the screen switch: the state that was last asked
/// for and the time of the last toggle.
#[derive(Clone, Copy, Debug, PartialEq, Eq)]
pub struct ButtonDebouncer {
    pub screen_on: bool,
    pub last_toggle_ms: Option<u64>,
}

/// What one look at the button led to.
#[derive(Clone, Copy, Debug, PartialEq, Eq)]
pub struct ButtonPoll {
    /// The screen state to ask for, if this look toggled it.
    pub toggle: Option<bool>,
    /// How long to wait before the next look, in milliseconds.
    pub wait_ms: u64,
}

impl ButtonDebouncer {
    /// The hold window of the last toggle is still open at `now_ms`.
    pub open spec fn holding(self, now_ms: u64) -> bool {
        self.last_toggle_ms matches Some(at) && now_ms < at + HOLD_MS
    }

    /// A look at `now_ms` that finds the button at level `pressed` toggles
    /// the screen.
    pub open spec fn fires(self, now_ms: u64, pressed: bool) -> bool {
        pressed && !self.holding(now_ms)
    }

    /// The debouncer after that look.
    pub open spec fn after_sample(self, now_ms: u64, pressed: bool) -> ButtonDebouncer {
        if self.fires(now_ms, pressed) {
            ButtonDebouncer { screen_on: !self.screen_on, last_toggle_ms: Some(now_ms) }
        } else {
            self
        }
    }

    /// What that look reports.
    pub open spec fn poll_of(self, now_ms: u64, pressed: bool) -> ButtonPoll {
        if self.fires(now_ms, pressed) {
            ButtonPoll { toggle: Some(!self.screen_on), wait_ms: (HOLD_MS + QUIET_MS) as u64 }
        } else {
            ButtonPoll { toggle: None, wait_ms: QUIET_MS }
        }
    }

    /// The debouncer of a node whose screen is off and whose button has
    /// not been pressed yet.
    pub fn new() -> (button: Self)
        ensures
            button == (ButtonDebouncer { screen_on: false, last_toggle_ms: None }),
    {
        ButtonDebouncer { screen_on: false, last_toggle_ms: None }
    }

    /// Takes one look at the button: `pressed` is its level at `now_ms`.
    /// A pressed button outside the hold window flips the requested screen
    /// state and opens a new hold window; any other look changes nothing.
    pub fn sample(&mut self, now_ms: u64, pressed: bool) -> (poll: ButtonPoll)
        ensures
            *final(self) == old(self).after_sample(now_ms, pressed),
            poll == old(self).poll_of(now_ms, pressed),
    {
        let holding = match self.last_toggle_ms {
            Some(at) => now_ms < at || now_ms - at < HOLD_MS,
            None => false,
        };
        if pressed && !holding {
            self.screen_on = !self.screen_on;
            self.last_toggle_ms = Some(now_ms);
            ButtonPoll { toggle: Some(self.screen_on), wait_ms: HOLD_MS + QUIET_MS }
        } else {
            ButtonPoll { toggle: None, wait_ms: QUIET_MS }
        }
    }
}

/// Two presses within one hold window change the requested screen state
/// exactly once: the first toggles it, the second is not seen.
pub proof fn lemma_hold_window_allows_one_toggle(
    button: ButtonDebouncer,
    first_ms: u64,
    second_ms: u64,
)
    requires
        !button.holding(first_ms),
        first_ms <= second_ms < first_ms + HOLD_MS,
    ensures
        button.poll_of(first_ms, true).toggle == Some(!button.screen_on),
        button.after_sample(first_ms, true).poll_of(second_ms, true).toggle is None,
        button.after_sample(first_ms, true).after_sample(second_ms, true).screen_on
            == !button.screen_on,
{
}

/// While the hold window is open no look changes anything, whatever the
/// button's level.
pub proof fn lemma_looks_during_hold_are_ignored(button: ButtonDebouncer, now_ms: u64, pressed: bool)
    requires
        button.holding(now_ms),
    ensures
        button.after_sample(now_ms, pressed) == button,
        button.poll_of(now_ms, pressed).toggle is None,
{
}

/// How current the values on the screen are.
#[derive(Clone, Copy, Debug, PartialEq, Eq)]
pub enum Tint {
    /// The values come from the most recent cycle.
    Fresh,
    /// The most recent cycle gave no reading; the values are older.
    Stale,
}

/// What the screen shows.
#[derive(Clone, Copy, Debug, PartialEq, Eq)]
pub enum Screen {
    /// The indicator shown until there are trusted values.
    Initializing,
    /// The values of `reading`, drawn in the treatment that `tint` names.
    Values { reading: PlantowerFrame, tint: Tint },
}

/// An event that reaches the display controller.
#[derive(Clone, Copy, Debug, PartialEq, Eq)]
pub enum DisplayEvent {
    /// The button asks for the screen to be on (`true`) or off.
    Toggle(bool),
    /// One sampling interval has passed, and its poll cycle ended with a
    /// reading or without one.
    Cycle(Option<PlantowerFrame>),
}

/// What the display task has to do after an event.
#[derive(Clone, Copy, Debug, PartialEq, Eq)]
pub enum DisplayAction {
    /// Nothing.
    Idle,
    /// Drive the backlight line high (`true`) or low.
    Backlight(bool),
    /// Clear the screen and draw this.
    Draw(Screen),
}

/// What a node in state `device` puts on its screen.
pub open spec fn screen_of(device: DeviceView) -> Screen {
    match (device.mode, device.last_reading) {
        (DeviceMode::Collecting, Some(reading)) => Screen::Values {
            reading,
            tint: if device.status_ok {
                Tint::Fresh
            } else {
                Tint::Stale
            },
        },
        _ => Screen::Initializing,
    }
}

/// The screen for the current state of `device`.
pub fn screen_for(device: &DisplayState) -> (screen: Screen)
    ensures
        screen == screen_of(device@),
{
    match (device.mode(), device.last_reading()) {
        (DeviceMode::Collecting, Some(reading)) => {
            let tint = if device.status_ok() {
                Tint::Fresh
            } else {
                Tint::Stale
            };
            Screen::Values { reading, tint }
        },
        _ => Screen::Initializing,
    }
}

/// What a `DisplayController` holds.
pub struct ControllerView {
    pub powered_on: bool,
    pub device: DeviceView,
}

impl ControllerView {
    /// The controller after `event`. A toggle sets the power state that
    /// it asks for. A cycle first advances the time by one tick and then
    /// records the cycle's outcome, whatever the power state.
    pub open spec fn after(self, event: DisplayEvent) -> ControllerView {
        match event {
            DisplayEvent::Toggle(requested) => ControllerView { powered_on: requested, ..self },
            DisplayEvent::Cycle(reading) => ControllerView {
                device: self.device.after_tick().after_update(reading),
                ..self
            },
        }
    }

    /// What `event` asks of the display task. A toggle drives the
    /// backlight only if it asks for a state other than the current one.
    /// A cycle is drawn only while the screen is on.
    pub open spec fn action_for(self, event: DisplayEvent) -> DisplayAction {
        match event {
            DisplayEvent::Toggle(requested) => if requested != self.powered_on {
                DisplayAction::Backlight(requested)
            } else {
                DisplayAction::Idle
            },
            DisplayEvent::Cycle(reading) => if self.powered_on {
                DisplayAction::Draw(screen_of(self.device.after_tick().after_update(reading)))
            } else {
                DisplayAction::Idle
            },
        }
    }

    /// The controller after the display task has passed on what a look at
    /// the button reported.
    pub open spec fn after_poll(self, poll: ButtonPoll) -> ControllerView {
        match poll.toggle {
            Some(requested) => self.after(DisplayEvent::Toggle(requested)),
            None => self,
        }
    }

    /// What the display task has to do for what a look at the button
    /// reported.
    pub open spec fn action_for_poll(self, poll: ButtonPoll) -> DisplayAction {
        match poll.toggle {
            Some(requested) => self.action_for(DisplayEvent::Toggle(requested)),
            None => DisplayAction::Idle,
        }
    }
}

/// The display task's state: whether the screen is powered, and the
/// node's picture of the sensor.
#[derive(Clone, Copy, Debug)]
pub struct DisplayController {
    powered_on: bool,
    device: DisplayState,
}

impl View for DisplayController {
    type V = ControllerView;

    closed spec fn view(&self) -> ControllerView {
        ControllerView { powered_on: self.powered_on, device: self.device@ }
    }
}

impl DisplayController {
    /// A controller whose screen is off and whose sensor has `ticks`
    /// ticks of warm-up ahead of it.
    pub fn new(ticks: u32) -> (controller: Self)
        ensures
            controller@ == (ControllerView { powered_on: false, device: DeviceView::initial(ticks) }),
    {
        DisplayController { powered_on: false, device: DisplayState::with_warmup(ticks) }
    }

    /// Whether the screen is powered.
    pub fn powered_on(&self) -> (on: bool)
        ensures
            on == self@.powered_on,
    {
        self.powered_on
    }

    /// The node's picture of the sensor.
    pub fn device(&self) -> (device: DisplayState)
        ensures
            device@ == self@.device,
    {
        self.device
    }

    /// Takes in one event and says what the display task has to do.
    pub fn handle(&mut self, event: DisplayEvent) -> (action: DisplayAction)
        ensures
            final(self)@ == old(self)@.after(event),
            action == old(self)@.action_for(event),
    {
        match event {
            DisplayEvent::Toggle(requested) => {
                if requested != self.powered_on {
                    self.powered_on = requested;
                    DisplayAction::Backlight(requested)
                } else {
                    DisplayAction::Idle
                }
            },
            DisplayEvent::Cycle(reading) => {
                self.device.tick();
                self.device.update(reading);
                if self.powered_on {
                    DisplayAction::Draw(screen_for(&self.device))
                } else {
                    DisplayAction::Idle
                }
            },
        }
    }
}

/// A request for the state that the screen is already in does nothing,
/// so a request that is signalled twice is applied once.
pub proof fn lemma_toggle_is_applied_once(controller: ControllerView, requested: bool)
    ensures
        controller.after(DisplayEvent::Toggle(requested)).powered_on == requested,
        controller.after(DisplayEvent::Toggle(requested)).action_for(
            DisplayEvent::Toggle(requested),
        ) == DisplayAction::Idle,
        controller.after(DisplayEvent::Toggle(requested)).after(DisplayEvent::Toggle(requested))
            == controller.after(DisplayEvent::Toggle(requested)),
        requested == controller.powered_on ==> controller.action_for(
            DisplayEvent::Toggle(requested),
        ) == DisplayAction::Idle,
{
}

/// Two presses within one hold window lead to exactly one applied
/// change of the screen's power: the first press switches the backlight,
/// the second asks for nothing.
pub proof fn lemma_two_quick_presses_apply_one_change(
    button: ButtonDebouncer,
    controller: ControllerView,
    first_ms: u64,
    second_ms: u64,
)
    requires
        controller.powered_on == button.screen_on,
        !button.holding(first_ms),
        first_ms <= second_ms < first_ms + HOLD_MS,
    ensures
        ({
            let first = button.poll_of(first_ms, true);
            let second = button.after_sample(first_ms, true).poll_of(second_ms, true);
            &&& controller.action_for_poll(first) == DisplayAction::Backlight(!button.screen_on)
            &&& controller.after_poll(first).action_for_poll(second) == DisplayAction::Idle
            &&& controller.after_poll(first).after_poll(second).powered_on == !controller.powered_on
        }),
{
}

/// A cycle is taken in whether the screen is on or off: the power state
/// decides only whether it is drawn.
pub proof fn lemma_cycles_are_consumed_when_dark(
    controller: ControllerView,
    reading: Option<PlantowerFrame>,
)
    ensures
        controller.after(DisplayEvent::Cycle(reading)).device
            == controller.device.after_tick().after_update(reading),
        controller.after(DisplayEvent::Cycle(reading)).powered_on == controller.powered_on,
        !controller.powered_on ==> controller.action_for(DisplayEvent::Cycle(reading))
            == DisplayAction::Idle,
{
}

/// During warm-up the screen shows the initializing indicator, and no
/// reading changes that.
pub proof fn lemma_warmup_shows_initializing(device: DeviceView, reading: Option<PlantowerFrame>)
    requires
        device.mode is WarmingUp,
    ensures
        screen_of(device) == Screen::Initializing,
        screen_of(device.after_update(reading)) == Screen::Initializing,
{
}

/// The same values are drawn differently when they are stale: a cycle
/// without a reading turns the fresh screen of `reading` into the stale
/// one.
pub proof fn lemma_stale_values_look_different(device: DeviceView, reading: PlantowerFrame)
    requires
        device.mode is Collecting,
    ensures
        screen_of(device.after_update(Some(reading))) == (Screen::Values {
            reading,
            tint: Tint::Fresh,
        }),
        screen_of(device.after_update(Some(reading)).after_update(None)) == (Screen::Values {
            reading,
            tint: Tint::Stale,
        }),
        screen_of(device.after_update(Some(reading))) != screen_of(
            device.after_update(Some(reading)).after_update(None),
        ),
{
}

/// The text that shows `frame` on the screen: its two headline
/// concentrations and its smallest particle count, as decimal numerals
/// separated by `" - "`.
pub open spec fn display_text(frame: PlantowerFrame) -> Seq<char> {
    decimal(frame.pm2_5_atm as nat) + " - "@ + decimal(frame.pm10_atm as nat) + " - "@ + decimal(
        frame.counts_0_3 as nat,
    )
}

/// Renders the text that shows `frame` on the screen.
pub fn display_line(frame: &PlantowerFrame) -> (line: TextLine)
    ensures
        line@ == display_text(*frame),
        line@.len() <= DISPLAY_TEXT_MAX,
{
    proof {
        reveal_strlit(" - ");
        lemma_decimal_u16(frame.pm2_5_atm);
        lemma_decimal_u16(frame.pm10_atm);
        lemma_decimal_u16(frame.counts_0_3);
    }
    let mut line = TextLine::new();
    line.push_decimal(frame.pm2_5_atm);
    line.push_text(" - ");
    line.push_decimal(frame.pm10_atm);
    line.push_text(" - ");
    line.push_decimal(frame.counts_0_3);
    line
}

} // verus!
