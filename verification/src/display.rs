//! The display activity: on a press of the button, show the latest reading
//! for a while, then clear the display.

use crate::mailbox::Mailbox;
use crate::record::MeasurementData;
use vstd::prelude::*;

verus! {

/// Seconds for which a reading stays on the display.
pub const DISPLAY_DWELL_SECS: u64 = 5;

/// What the activity waits for.
#[derive(Clone, Copy, Debug, PartialEq, Eq, Structural)]
pub enum DisplayState {
    /// The display is clear: waiting for a press.
    Idle,
    /// A reading is shown: waiting for the dwell to end, or for a press.
    Showing,
}

/// What happened.
#[derive(Clone, Copy, Debug, PartialEq, Eq, Structural)]
pub enum DisplayEvent {
    /// The button was pressed.
    Pressed,
    /// `DISPLAY_DWELL_SECS` have passed since the display was last drawn.
    DwellElapsed,
}

/// What the caller is asked to do with the display.
#[derive(Clone, Copy, Debug, PartialEq, Eq)]
pub enum DisplayAction {
    /// Draw the reading, or that there is none yet, and start the dwell.
    Show(Option<MeasurementData>),
    /// Clear the display.
    Clear,
    /// Leave the display as it is.
    Nothing,
}

/// The state after an event. A press shows the latest reading and starts
/// the dwell, anew if a reading is shown already; the end of the dwell
/// clears what is shown.
pub open spec fn next_state(state: DisplayState, event: DisplayEvent) -> DisplayState {
    match event {
        DisplayEvent::Pressed => DisplayState::Showing,
        DisplayEvent::DwellElapsed => DisplayState::Idle,
    }
}

/// What is to be done with the display on an event, with the mailbox
/// holding `held`.
pub open spec fn reaction(
    state: DisplayState,
    event: DisplayEvent,
    held: Option<MeasurementData>,
) -> DisplayAction {
    match (state, event) {
        (_, DisplayEvent::Pressed) => DisplayAction::Show(held),
        (DisplayState::Showing, DisplayEvent::DwellElapsed) => DisplayAction::Clear,
        (DisplayState::Idle, DisplayEvent::DwellElapsed) => DisplayAction::Nothing,
    }
}

/// The display activity.
#[derive(Clone, Copy, Debug)]
pub struct DisplayActivity {
    state: DisplayState,
}

impl View for DisplayActivity {
    type V = DisplayState;

    closed spec fn view(&self) -> DisplayState {
        self.state
    }
}

impl DisplayActivity {
    /// The activity at start: nothing is shown.
    pub fn new() -> (activity: DisplayActivity)
        ensures
            activity@ is Idle,
    {
        DisplayActivity { state: DisplayState::Idle }
    }

    /// What the activity waits for.
    pub fn state(&self) -> (state: DisplayState)
        ensures
            state == self@,
    {
        self.state
    }

    /// Takes an event and says what to do with the display. The mailbox is
    /// read on a press, and only then.
    pub fn step(&mut self, event: DisplayEvent, mailbox: &Mailbox) -> (action: DisplayAction)
        ensures
            final(self)@ == next_state(old(self)@, event),
            action == reaction(old(self)@, event, mailbox@),
    {
        match event {
            DisplayEvent::Pressed => {
                self.state = DisplayState::Showing;
                DisplayAction::Show(mailbox.read())
            },
            DisplayEvent::DwellElapsed => {
                let shown = match self.state {
                    DisplayState::Showing => true,
                    DisplayState::Idle => false,
                };
                self.state = DisplayState::Idle;
                if shown {
                    DisplayAction::Clear
                } else {
                    DisplayAction::Nothing
                }
            },
        }
    }
}

/// Whatever the sampling activity is doing, a press shows what the mailbox
/// holds at that moment: the latest record, whole, or that there is none
/// yet. After the dwell the display is clear and the activity waits again.
pub proof fn lemma_press_shows_mailbox(state: DisplayState, held: Option<MeasurementData>)
    ensures
        reaction(state, DisplayEvent::Pressed, held) == DisplayAction::Show(held),
        next_state(state, DisplayEvent::Pressed) is Showing,
        reaction(
            next_state(state, DisplayEvent::Pressed),
            DisplayEvent::DwellElapsed,
            held,
        ) is Clear,
        next_state(next_state(state, DisplayEvent::Pressed), DisplayEvent::DwellElapsed) is Idle,
{
}

} // verus!
