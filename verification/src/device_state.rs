//! Warm-up tracking: what the node knows about the sensor's state and
//! about the most recent reading.

use crate::sensor_reading::PlantowerFrame;
use vstd::prelude::*;

verus! {

/// Number of ticks a freshly started sensor spends warming up.
pub const WARMUP_TICKS: u32 = 30;

/// Whether the sensor is still warming up, and for how many more ticks.
#[derive(Clone, Copy, Debug, PartialEq, Eq)]
pub enum DeviceMode {
    /// The airflow is not stable yet; the payload is the number of ticks
    /// that remain before the last warm-up tick.
    WarmingUp(u32),
    /// Readings are trusted. Once entered, this mode is never left.
    Collecting,
}

/// The mode that follows `mode` after one tick.
pub open spec fn next_mode(mode: DeviceMode) -> DeviceMode {
    match mode {
        DeviceMode::WarmingUp(remaining) => if remaining > 0 {
            DeviceMode::WarmingUp((remaining - 1) as u32)
        } else {
            DeviceMode::Collecting
        },
        DeviceMode::Collecting => DeviceMode::Collecting,
    }
}

/// The mode that follows `mode` after `ticks` ticks.
pub open spec fn mode_after(mode: DeviceMode, ticks: nat) -> DeviceMode
    decreases ticks,
{
    if ticks == 0 {
        mode
    } else {
        mode_after(next_mode(mode), (ticks - 1) as nat)
    }
}

/// What a `DisplayState` holds.
pub struct DeviceView {
    pub mode: DeviceMode,
    pub last_reading: Option<PlantowerFrame>,
    pub status_ok: bool,
}

impl DeviceView {
    /// The state of a node that starts with `ticks` ticks of warm-up
    /// ahead of it.
    pub open spec fn initial(ticks: u32) -> DeviceView {
        DeviceView { mode: DeviceMode::WarmingUp(ticks), last_reading: None, status_ok: true }
    }

    /// While the sensor warms up nothing has been recorded: there is no
    /// last reading, and no failed cycle has marked the status.
    pub open spec fn well_formed(self) -> bool {
        self.mode is WarmingUp ==> self.last_reading is None && self.status_ok
    }

    /// The state after one tick: the mode advances, the rest stays.
    pub open spec fn after_tick(self) -> DeviceView {
        DeviceView { mode: next_mode(self.mode), ..self }
    }

    /// The state after one poll cycle has delivered `reading`. During
    /// warm-up the cycle leaves no trace. While collecting, a reading
    /// becomes the last known one and marks the status valid; a missing
    /// reading keeps the last known one and marks the status stale.
    pub open spec fn after_update(self, reading: Option<PlantowerFrame>) -> DeviceView {
        match self.mode {
            DeviceMode::WarmingUp(_) => self,
            DeviceMode::Collecting => match reading {
                Some(frame) => DeviceView { last_reading: Some(frame), status_ok: true, ..self },
                None => DeviceView { status_ok: false, ..self },
            },
        }
    }

    /// The state after the poll cycles of `readings`, first to last.
    pub open spec fn after_updates(self, readings: Seq<Option<PlantowerFrame>>) -> DeviceView
        decreases readings.len(),
    {
        if readings.len() == 0 {
            self
        } else {
            self.after_updates(readings.drop_last()).after_update(readings.last())
        }
    }
}

/// The node's picture of the sensor: its mode, the last reading it
/// trusted and whether that reading is current.
#[derive(Clone, Copy, Debug)]
pub struct DisplayState {
    mode: DeviceMode,
    last_reading: Option<PlantowerFrame>,
    status_ok: bool,
}

impl View for DisplayState {
    type V = DeviceView;

    closed spec fn view(&self) -> DeviceView {
        DeviceView { mode: self.mode, last_reading: self.last_reading, status_ok: self.status_ok }
    }
}

impl DisplayState {
    #[verifier::type_invariant]
    spec fn holds_nothing_during_warmup(self) -> bool {
        self@.well_formed()
    }

    /// A node that starts with the standard warm-up ahead of it.
    pub fn new() -> (state: Self)
        ensures
            state@ == DeviceView::initial(WARMUP_TICKS),
    {
        DisplayState { mode: DeviceMode::WarmingUp(WARMUP_TICKS), last_reading: None, status_ok: true }
    }

    /// A node that starts with `ticks` ticks of warm-up ahead of it.
    pub fn with_warmup(ticks: u32) -> (state: Self)
        ensures
            state@ == DeviceView::initial(ticks),
    {
        DisplayState { mode: DeviceMode::WarmingUp(ticks), last_reading: None, status_ok: true }
    }

    /// The current mode.
    pub fn mode(&self) -> (mode: DeviceMode)
        ensures
            mode == self@.mode,
            self@.well_formed(),
    {
        proof {
            use_type_invariant(self);
        }
        self.mode
    }

    /// The last reading that was recorded, if any; never one from the
    /// warm-up.
    pub fn last_reading(&self) -> (reading: Option<PlantowerFrame>)
        ensures
            reading == self@.last_reading,
            self@.well_formed(),
    {
        proof {
            use_type_invariant(self);
        }
        self.last_reading
    }

    /// Whether the most recent cycle in collecting mode, if there was
    /// one, produced a reading.
    pub fn status_ok(&self) -> (ok: bool)
        ensures
            ok == self@.status_ok,
            self@.well_formed(),
    {
        proof {
            use_type_invariant(self);
        }
        self.status_ok
    }

    /// Advances time by one sampling interval.
    pub fn tick(&mut self)
        ensures
            final(self)@ == old(self)@.after_tick(),
            final(self)@.well_formed(),
    {
        proof {
            use_type_invariant(&*self);
        }
        match self.mode {
            DeviceMode::WarmingUp(remaining) => {
                if remaining > 0 {
                    self.mode = DeviceMode::WarmingUp(remaining - 1);
                } else {
                    self.mode = DeviceMode::Collecting;
                }
            },
            DeviceMode::Collecting => {},
        }
    }

    /// Records the outcome of one poll cycle.
    pub fn update(&mut self, reading: Option<PlantowerFrame>)
        ensures
            final(self)@ == old(self)@.after_update(reading),
            final(self)@.well_formed(),
    {
        proof {
            use_type_invariant(&*self);
        }
        match self.mode {
            DeviceMode::WarmingUp(_) => {},
            DeviceMode::Collecting => {
                match reading {
                    Some(frame) => {
                        self.last_reading = Some(frame);
                        self.status_ok = true;
                    },
                    None => {
                        self.status_ok = false;
                    },
                }
            },
        }
    }
}

/// The tick that finds the countdown at zero ends the warm-up.
pub proof fn lemma_tick_at_zero_starts_collecting()
    ensures
        next_mode(DeviceMode::WarmingUp(0)) == DeviceMode::Collecting,
{
}

/// Collecting is a fixed point: no number of ticks leaves it.
pub proof fn lemma_collecting_is_terminal(ticks: nat)
    ensures
        mode_after(DeviceMode::Collecting, ticks) == DeviceMode::Collecting,
    decreases ticks,
{
    if ticks > 0 {
        lemma_collecting_is_terminal((ticks - 1) as nat);
    }
}

/// A warm-up of `remaining` ticks counts down one per tick, reaches zero
/// after `remaining` ticks, and gives way to collecting with the tick after
/// that; from then on the mode is collecting.
pub proof fn lemma_warmup_counts_down(remaining: u32, ticks: nat)
    ensures
        ticks <= remaining ==> mode_after(DeviceMode::WarmingUp(remaining), ticks)
            == DeviceMode::WarmingUp((remaining - ticks) as u32),
        ticks > remaining ==> mode_after(DeviceMode::WarmingUp(remaining), ticks)
            == DeviceMode::Collecting,
    decreases ticks,
{
    if ticks > 0 {
        if remaining > 0 {
            lemma_warmup_counts_down((remaining - 1) as u32, (ticks - 1) as nat);
        } else {
            lemma_collecting_is_terminal((ticks - 1) as nat);
        }
    }
}

/// Ticks never lead back from collecting to warming up, and a warm-up
/// never grows.
pub proof fn lemma_modes_only_advance(mode: DeviceMode, ticks: nat)
    ensures
        mode is Collecting ==> mode_after(mode, ticks) is Collecting,
        match (mode, mode_after(mode, ticks)) {
            (DeviceMode::WarmingUp(before), DeviceMode::WarmingUp(after)) => after <= before,
            _ => true,
        },
{
    match mode {
        DeviceMode::WarmingUp(remaining) => lemma_warmup_counts_down(remaining, ticks),
        DeviceMode::Collecting => lemma_collecting_is_terminal(ticks),
    }
}

/// During warm-up poll cycles leave no trace, however many there are and
/// whatever they deliver: the status is not touched and no reading is
/// recorded.
pub proof fn lemma_warmup_ignores_updates(state: DeviceView, readings: Seq<Option<PlantowerFrame>>)
    requires
        state.well_formed(),
        state.mode is WarmingUp,
    ensures
        state.after_updates(readings) == state,
        state.after_updates(readings).last_reading is None,
    decreases readings.len(),
{
    if readings.len() > 0 {
        lemma_warmup_ignores_updates(state, readings.drop_last());
    }
}

/// The status is stale after a poll cycle exactly when the cycle ran in
/// collecting mode and delivered no reading; after any other cycle it is
/// valid.
pub proof fn lemma_status_is_stale_only_after_a_missed_cycle(
    state: DeviceView,
    reading: Option<PlantowerFrame>,
)
    requires
        state.well_formed(),
    ensures
        !state.after_update(reading).status_ok <==> state.mode is Collecting && reading is None,
        state.after_update(reading).well_formed(),
        state.after_tick().status_ok == state.status_ok,
{
}

/// While collecting, a cycle without a reading that follows a cycle with
/// the reading `frame` keeps `frame` as the last known reading and marks
/// it stale.
pub proof fn lemma_missing_reading_keeps_last(state: DeviceView, frame: PlantowerFrame)
    requires
        state.mode is Collecting,
    ensures
        state.after_update(Some(frame)).status_ok,
        state.after_update(Some(frame)).after_update(None) == (DeviceView {
            mode: DeviceMode::Collecting,
            last_reading: Some(frame),
            status_ok: false,
        }),
{
}

} // verus!
