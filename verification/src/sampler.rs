//! The sampling activity: wait for the sensor, read it, log the reading and
//! publish it, over and over.
//!
//! The activity does none of this itself. It names the next thing to do,
//! the caller does it, however long it takes, and hands back what came of
//! it.

use crate::adalogger::LogError;
use crate::clock::Timestamp;
use crate::record::{stamped, Measurement, MeasurementData};
use vstd::prelude::*;

verus! {

/// Seconds to wait before the sensor is asked again whether it has data.
pub const READINESS_BACKOFF_SECS: u64 = 30;

/// Seconds for which a failure to log stays on the display.
pub const REPORT_DWELL_SECS: u64 = 5;

/// What the caller is asked to do next.
#[derive(Clone, Copy, Debug, PartialEq, Eq)]
pub enum SamplerAction {
    /// Ask the sensor whether a reading is ready.
    PollReadiness,
    /// Sleep for `READINESS_BACKOFF_SECS`, so that whatever else is to run
    /// can run.
    BackOff,
    /// Read the sensor.
    ReadSensor,
    /// Read the clock.
    ReadClock,
    /// Raise the signal that a write to the card is under way.
    RaiseIndicator,
    /// Append the record to the log.
    Append(MeasurementData),
    /// Put the record into the mailbox.
    Publish(MeasurementData),
    /// Lower the signal.
    LowerIndicator,
    /// Show the failure for `REPORT_DWELL_SECS`, then clear the display.
    Report(LogError),
}

/// What came of the action asked for last.
#[derive(Clone, Copy, Debug, PartialEq, Eq)]
pub enum SamplerEvent {
    /// The sensor said whether a reading is ready.
    Readiness(bool),
    /// The sensor gave a reading.
    Measured(Measurement),
    /// The clock gave the time.
    Time(Timestamp),
    /// The log store has finished with the record.
    Appended(Result<(), LogError>),
    /// A sleep, a signal, a publish or a report is done.
    Done,
    /// The sensor or the clock could not be read.
    Failed,
}

/// The three states of the activity.
#[derive(Clone, Copy, Debug, PartialEq, Eq, Structural)]
pub enum SamplerState {
    WaitingForData,
    Reading,
    Logging,
}

/// The activity: the action that is under way, with what it works on.
#[derive(Clone, Copy, Debug, PartialEq, Eq)]
pub enum Sampler {
    /// Asking the sensor for readiness.
    Polling,
    /// Sleeping before the next poll.
    BackingOff,
    /// Reading the sensor.
    Measuring,
    /// Reading the clock for the reading at hand.
    Timing(Measurement),
    /// Raising the signal.
    Raising(MeasurementData),
    /// Appending the record.
    Appending(MeasurementData),
    /// Publishing the record, after the append ended as given.
    Publishing(MeasurementData, Result<(), LogError>),
    /// Lowering the signal.
    Lowering(Result<(), LogError>),
    /// Showing why the record was not logged.
    Reporting(LogError),
}

impl Sampler {
    /// The state that the activity is in.
    pub open spec fn state(self) -> SamplerState {
        match self {
            Sampler::Polling | Sampler::BackingOff | Sampler::Reporting(_) => {
                SamplerState::WaitingForData
            },
            Sampler::Measuring => SamplerState::Reading,
            _ => SamplerState::Logging,
        }
    }

    /// The action that is under way.
    pub open spec fn pending(self) -> SamplerAction {
        match self {
            Sampler::Polling => SamplerAction::PollReadiness,
            Sampler::BackingOff => SamplerAction::BackOff,
            Sampler::Measuring => SamplerAction::ReadSensor,
            Sampler::Timing(_) => SamplerAction::ReadClock,
            Sampler::Raising(_) => SamplerAction::RaiseIndicator,
            Sampler::Appending(record) => SamplerAction::Append(record),
            Sampler::Publishing(record, _) => SamplerAction::Publish(record),
            Sampler::Lowering(_) => SamplerAction::LowerIndicator,
            Sampler::Reporting(e) => SamplerAction::Report(e),
        }
    }

    /// The activity after an event.
    ///
    /// A sensor that does not say that it is ready is asked again after a
    /// sleep, never at once. A reading that cannot be had, or cannot be
    /// timed, is dropped, and the activity sleeps before it asks again. A
    /// record is appended with the signal up, and published whether the
    /// append succeeded or not; the signal then comes down, and a failed
    /// append is reported. After a poll, every event is taken for its
    /// answer; elsewhere an event that is no answer to the action under way
    /// changes nothing.
    pub open spec fn next(self, event: SamplerEvent) -> Sampler {
        match (self, event) {
            (Sampler::Polling, SamplerEvent::Readiness(true)) => Sampler::Measuring,
            (Sampler::Polling, _) => Sampler::BackingOff,
            (Sampler::BackingOff, SamplerEvent::Done) => Sampler::Polling,
            (Sampler::Measuring, SamplerEvent::Measured(reading)) => Sampler::Timing(reading),
            (Sampler::Measuring, SamplerEvent::Failed) => Sampler::BackingOff,
            (Sampler::Timing(reading), SamplerEvent::Time(time)) => Sampler::Raising(
                stamped(reading, time),
            ),
            (Sampler::Timing(_), SamplerEvent::Failed) => Sampler::BackingOff,
            (Sampler::Raising(record), SamplerEvent::Done) => Sampler::Appending(record),
            (Sampler::Appending(record), SamplerEvent::Appended(result)) => Sampler::Publishing(
                record,
                result,
            ),
            (Sampler::Publishing(_, result), SamplerEvent::Done) => Sampler::Lowering(result),
            (Sampler::Lowering(Ok(_)), SamplerEvent::Done) => Sampler::Polling,
            (Sampler::Lowering(Err(e)), SamplerEvent::Done) => Sampler::Reporting(e),
            (Sampler::Reporting(_), SamplerEvent::Done) => Sampler::Polling,
            _ => self,
        }
    }

    /// The activity at start: about to ask the sensor.
    pub fn new() -> (sampler: Sampler)
        ensures
            sampler == Sampler::Polling,
    {
        Sampler::Polling
    }

    /// The action that is under way.
    pub fn action(&self) -> (action: SamplerAction)
        ensures
            action == self.pending(),
    {
        match *self {
            Sampler::Polling => SamplerAction::PollReadiness,
            Sampler::BackingOff => SamplerAction::BackOff,
            Sampler::Measuring => SamplerAction::ReadSensor,
            Sampler::Timing(_) => SamplerAction::ReadClock,
            Sampler::Raising(_) => SamplerAction::RaiseIndicator,
            Sampler::Appending(record) => SamplerAction::Append(record),
            Sampler::Publishing(record, _) => SamplerAction::Publish(record),
            Sampler::Lowering(_) => SamplerAction::LowerIndicator,
            Sampler::Reporting(e) => SamplerAction::Report(e),
        }
    }

    /// Takes what came of the action under way and names the next one.
    pub fn step(&mut self, event: SamplerEvent) -> (action: SamplerAction)
        ensures
            *final(self) == old(self).next(event),
            action == final(self).pending(),
    {
        let now = *self;
        let then = match (now, event) {
            (Sampler::Polling, SamplerEvent::Readiness(true)) => Sampler::Measuring,
            (Sampler::Polling, _) => Sampler::BackingOff,
            (Sampler::BackingOff, SamplerEvent::Done) => Sampler::Polling,
            (Sampler::Measuring, SamplerEvent::Measured(reading)) => Sampler::Timing(reading),
            (Sampler::Measuring, SamplerEvent::Failed) => Sampler::BackingOff,
            (Sampler::Timing(reading), SamplerEvent::Time(time)) => Sampler::Raising(
                MeasurementData::new(reading, time),
            ),
            (Sampler::Timing(_), SamplerEvent::Failed) => Sampler::BackingOff,
            (Sampler::Raising(record), SamplerEvent::Done) => Sampler::Appending(record),
            (Sampler::Appending(record), SamplerEvent::Appended(result)) => Sampler::Publishing(
                record,
                result,
            ),
            (Sampler::Publishing(_, result), SamplerEvent::Done) => Sampler::Lowering(result),
            (Sampler::Lowering(Ok(_)), SamplerEvent::Done) => Sampler::Polling,
            (Sampler::Lowering(Err(e)), SamplerEvent::Done) => Sampler::Reporting(e),
            (Sampler::Reporting(_), SamplerEvent::Done) => Sampler::Polling,
            (same, _) => same,
        };
        *self = then;
        self.action()
    }

    /// The state that the activity is in.
    pub fn current_state(&self) -> (state: SamplerState)
        ensures
            state == self.state(),
    {
        match *self {
            Sampler::Polling | Sampler::BackingOff | Sampler::Reporting(_) => {
                SamplerState::WaitingForData
            },
            Sampler::Measuring => SamplerState::Reading,
            _ => SamplerState::Logging,
        }
    }
}

/// What the activity acts on, as far as its actions change it.
pub struct Surroundings {
    /// The signal that a write is under way is up.
    pub indicator: bool,
    /// What the mailbox holds.
    pub mailbox: Option<MeasurementData>,
    /// The records handed to the log store so far.
    pub handed: Seq<MeasurementData>,
}

impl Surroundings {
    /// The surroundings after an action was carried out and answered.
    pub open spec fn after(self, action: SamplerAction, event: SamplerEvent) -> Surroundings {
        match (action, event) {
            (SamplerAction::RaiseIndicator, SamplerEvent::Done) => Surroundings {
                indicator: true,
                ..self
            },
            (SamplerAction::LowerIndicator, SamplerEvent::Done) => Surroundings {
                indicator: false,
                ..self
            },
            (SamplerAction::Append(record), SamplerEvent::Appended(_)) => Surroundings {
                handed: self.handed.push(record),
                ..self
            },
            (SamplerAction::Publish(record), SamplerEvent::Done) => Surroundings {
                mailbox: Some(record),
                ..self
            },
            _ => self,
        }
    }
}

/// The signal is to be up in this stage: from the append until the signal
/// is lowered.
pub open spec fn writing(sampler: Sampler) -> bool {
    sampler is Appending || sampler is Publishing || sampler is Lowering
}

/// Activity and surroundings after the events, each of which answers the
/// action under way at its turn.
pub open spec fn run(sampler: Sampler, around: Surroundings, events: Seq<SamplerEvent>) -> (
    Sampler,
    Surroundings,
)
    decreases events.len(),
{
    if events.len() == 0 {
        (sampler, around)
    } else {
        run(
            sampler.next(events[0]),
            around.after(sampler.pending(), events[0]),
            events.drop_first(),
        )
    }
}

/// A poll is never followed by a poll: whatever the answer, the activity
/// next reads the sensor, which it does only if the sensor said that it is
/// ready, or sleeps.
pub proof fn lemma_poll_then_read_or_sleep(event: SamplerEvent)
    ensures
        Sampler::Polling.next(event).pending() == if event == SamplerEvent::Readiness(true) {
            SamplerAction::ReadSensor
        } else {
            SamplerAction::BackOff
        },
{
}

/// As long as the sensor never says that it is ready, the activity does
/// nothing but ask and sleep in turn, and leaves signal, log and mailbox as
/// they were.
pub proof fn lemma_unready_sensor_changes_nothing(
    sampler: Sampler,
    around: Surroundings,
    events: Seq<SamplerEvent>,
)
    requires
        sampler is Polling || sampler is BackingOff,
        forall|i: int| 0 <= i < events.len() ==> events[i] != SamplerEvent::Readiness(true),
    ensures
        run(sampler, around, events).0 is Polling || run(sampler, around, events).0 is BackingOff,
        run(sampler, around, events).1 == around,
    decreases events.len(),
{
    if events.len() > 0 {
        let rest = events.drop_first();
        assert forall|i: int| 0 <= i < rest.len() implies rest[i] != SamplerEvent::Readiness(
            true,
        ) by {
            assert(rest[i] == events[i + 1]);
        }
        lemma_unready_sensor_changes_nothing(
            sampler.next(events[0]),
            around.after(sampler.pending(), events[0]),
            rest,
        );
    }
}

/// The signal is up exactly from the append until it is lowered: if it
/// stands so before a step it stands so after it, and a record is handed to
/// the log store only while the signal is up.
pub proof fn lemma_signal_brackets_write(
    sampler: Sampler,
    around: Surroundings,
    event: SamplerEvent,
)
    requires
        around.indicator == writing(sampler),
    ensures
        around.after(sampler.pending(), event).indicator == writing(sampler.next(event)),
        sampler.pending() is Append ==> around.indicator,
{
}

/// Once a record is made, it is handed to the log store, and then
/// published whole whether or not the log store took it; the signal is
/// down again afterwards, and the activity is back to waiting for data:
/// reporting the failure if there was one, else asking the sensor.
pub proof fn lemma_publish_whatever_append(
    record: MeasurementData,
    around: Surroundings,
    result: Result<(), LogError>,
)
    ensures
        ({
            let events = seq![
                SamplerEvent::Done,
                SamplerEvent::Appended(result),
                SamplerEvent::Done,
                SamplerEvent::Done,
            ];
            let end = run(Sampler::Raising(record), around, events);
            &&& end.1.mailbox == Some(record)
            &&& end.1.handed == around.handed.push(record)
            &&& !end.1.indicator
            &&& end.0.state() is WaitingForData
            &&& end.0 == match result {
                Ok(_) => Sampler::Polling,
                Err(e) => Sampler::Reporting(e),
            }
        }),
{
    let events = seq![
        SamplerEvent::Done,
        SamplerEvent::Appended(result),
        SamplerEvent::Done,
        SamplerEvent::Done,
    ];
    reveal_with_fuel(run, 5);
    let e1 = events.drop_first();
    let e2 = e1.drop_first();
    let e3 = e2.drop_first();
    let e4 = e3.drop_first();
    assert(events[0] == SamplerEvent::Done);
    assert(e1[0] == SamplerEvent::Appended(result));
    assert(e2[0] == SamplerEvent::Done);
    assert(e3[0] == SamplerEvent::Done);
    assert(e4.len() == 0);
}

} // verus!
