//! The logger board: its clock and the log file on its storage card.
//!
//! Appending one record takes a series of operations on the card, each of
//! which may fail. The card is not touched from here. `write_co2_data`
//! prepares the line and names the first operation; the caller carries each
//! operation out and passes what became of it to `advance`, which names the
//! next one, until `Action::Finish` carries the result.

use crate::clock::{checked_calendar, register_calendar, Calendar, ClockError, Pcf8253, Timestamp};
use crate::line::{data_line, empty_line, line_bytes, line_text, record_line, LINE_CAPACITY};
use crate::record::MeasurementData;
use vstd::prelude::*;
use vstd::string::StringSliceAdditionalSpecFns;

verus! {

/// Why a record was not appended.
#[derive(Clone, Copy, Debug, PartialEq, Eq, Structural)]
pub enum LogError {
    /// The card could not be mounted, or its root directory not opened.
    MediumUnavailable,
    /// The log file could neither be created nor opened.
    FileUnavailable,
    /// The file was created, but the header could not be written to it.
    HeaderNotWritten,
    /// The record makes a line that is longer than a line may be.
    LineTooLong,
    /// An earlier record is still being appended.
    Busy,
}

/// What became of an operation on the card.
#[derive(Clone, Copy, Debug, PartialEq, Eq, Structural)]
pub enum Reply {
    Done,
    Failed,
}

/// The operation that the caller is asked to carry out next.
#[derive(Clone, Copy, Debug, PartialEq, Eq)]
pub enum Action {
    /// Take the card and get its first volume.
    Mount,
    /// Open the root directory of the volume.
    OpenRootDir,
    /// Look the log file up in the root directory. It failed if there is no
    /// such file.
    FindFile,
    /// Create the log file, open for writing.
    CreateFile,
    /// Write the header line to the open file.
    WriteHeader,
    /// Open the log file for appending.
    OpenFile,
    /// Write the line of the record to the open file.
    WriteLine,
    /// Close the file.
    CloseFile,
    /// Close the root directory.
    CloseDir,
    /// Give the volume and the card back.
    Release,
    /// Nothing is left to do: this is what came of the record.
    Finish(Result<(), LogError>),
}

/// The operation whose reply is awaited, if any.
#[derive(Clone, Copy, Debug, PartialEq, Eq, Structural)]
pub enum Phase {
    Idle,
    Mounting,
    OpeningRoot,
    Looking,
    Creating,
    WritingHeader,
    Opening,
    WritingLine,
    ClosingFile,
    ClosingDir,
    Releasing,
}

/// How far the logger has come with the record at hand.
pub struct Progress {
    pub phase: Phase,
    /// The first failure met with this record.
    pub failure: Option<LogError>,
    /// The line of this record.
    pub line: Seq<u8>,
    /// The line was to be written and the card refused it.
    pub line_lost: bool,
}

impl Progress {
    /// What comes of the record, once nothing is left to do.
    pub open spec fn outcome(self) -> Result<(), LogError> {
        match self.failure {
            None => Ok(()),
            Some(e) => Err(e),
        }
    }

    /// The operation that is asked for in this state.
    pub open spec fn pending(self) -> Action {
        match self.phase {
            Phase::Idle => Action::Finish(self.outcome()),
            Phase::Mounting => Action::Mount,
            Phase::OpeningRoot => Action::OpenRootDir,
            Phase::Looking => Action::FindFile,
            Phase::Creating => Action::CreateFile,
            Phase::WritingHeader => Action::WriteHeader,
            Phase::Opening => Action::OpenFile,
            Phase::WritingLine => Action::WriteLine,
            Phase::ClosingFile => Action::CloseFile,
            Phase::ClosingDir => Action::CloseDir,
            Phase::Releasing => Action::Release,
        }
    }

    /// The state after the reply to the pending operation.
    ///
    /// A failure to mount ends the work at once, for nothing is held then.
    /// Any later failure, but that of writing the line, is kept as the
    /// result, and what is open at that point is closed in order: the file,
    /// the directory, the volume. A log file that is not found is created
    /// and gets the header; one that is found is opened for appending.
    pub open spec fn step(self, reply: Reply) -> Progress {
        let done = reply is Done;
        match self.phase {
            Phase::Idle => self,
            Phase::Mounting => if done {
                Progress { phase: Phase::OpeningRoot, ..self }
            } else {
                Progress {
                    phase: Phase::Idle,
                    failure: Some(LogError::MediumUnavailable),
                    ..self
                }
            },
            Phase::OpeningRoot => if done {
                Progress { phase: Phase::Looking, ..self }
            } else {
                Progress {
                    phase: Phase::Releasing,
                    failure: Some(LogError::MediumUnavailable),
                    ..self
                }
            },
            Phase::Looking => if done {
                Progress { phase: Phase::Opening, ..self }
            } else {
                Progress { phase: Phase::Creating, ..self }
            },
            Phase::Creating => if done {
                Progress { phase: Phase::WritingHeader, ..self }
            } else {
                Progress {
                    phase: Phase::ClosingDir,
                    failure: Some(LogError::FileUnavailable),
                    ..self
                }
            },
            Phase::WritingHeader => if done {
                Progress { phase: Phase::WritingLine, ..self }
            } else {
                Progress {
                    phase: Phase::ClosingFile,
                    failure: Some(LogError::HeaderNotWritten),
                    ..self
                }
            },
            Phase::Opening => if done {
                Progress { phase: Phase::WritingLine, ..self }
            } else {
                Progress {
                    phase: Phase::ClosingDir,
                    failure: Some(LogError::FileUnavailable),
                    ..self
                }
            },
            Phase::WritingLine => Progress {
                phase: Phase::ClosingFile,
                line_lost: !done,
                ..self
            },
            Phase::ClosingFile => Progress { phase: Phase::ClosingDir, ..self },
            Phase::ClosingDir => Progress { phase: Phase::Releasing, ..self },
            Phase::Releasing => Progress { phase: Phase::Idle, ..self },
        }
    }
}

/// The logger as `write_co2_data` leaves it with the line of a record:
/// about to mount the card.
pub open spec fn begun(line: Seq<u8>) -> Progress {
    Progress { phase: Phase::Mounting, failure: None, line, line_lost: false }
}

/// The clock and the log of the logger board.
pub struct Adalogger {
    rtc: Pcf8253,
    phase: Phase,
    failure: Option<LogError>,
    line: heapless::String<46>,
    line_lost: bool,
}

impl View for Adalogger {
    type V = Progress;

    closed spec fn view(&self) -> Progress {
        Progress {
            phase: self.phase,
            failure: self.failure,
            line: line_bytes(self.line),
            line_lost: self.line_lost,
        }
    }
}

impl Adalogger {
    /// The registers of the clock as taken last.
    pub closed spec fn clock(&self) -> [u8; 7] {
        self.rtc.registers
    }

    /// A logger with the clock registers as read at start, and no record
    /// at hand.
    pub fn new(rtc: Pcf8253) -> (logger: Adalogger)
        ensures
            logger.clock() == rtc.registers,
            logger@ == (Progress {
                phase: Phase::Idle,
                failure: None,
                line: Seq::empty(),
                line_lost: false,
            }),
    {
        let line = empty_line();
        assert(line_bytes(line) =~= Seq::<u8>::empty());
        Adalogger { rtc, phase: Phase::Idle, failure: None, line, line_lost: false }
    }

    /// Takes the clock registers as read anew.
    pub fn set_clock(&mut self, rtc: Pcf8253)
        ensures
            final(self).clock() == rtc.registers,
            final(self)@ == old(self)@,
    {
        self.rtc = rtc;
    }

    /// The time that the clock registers read last stand for, or the first
    /// of its components that is out of range.
    pub fn get_timestamp(&self) -> (time: Result<Timestamp, ClockError>)
        ensures
            match time {
                Ok(t) => checked_calendar(register_calendar(self.clock())) == Ok::<
                    Calendar,
                    ClockError,
                >(t@),
                Err(e) => checked_calendar(register_calendar(self.clock())) == Err::<
                    Calendar,
                    ClockError,
                >(e),
            },
    {
        self.rtc.get_timestamp()
    }

    /// Takes a record to append and asks for the card to be mounted.
    /// `temperature` and `humidity` are the two readings of `data` as text,
    /// as the line is to show them. Nothing is taken while an earlier
    /// record is at hand, nor a record whose line would be too long.
    pub fn write_co2_data(&mut self, data: &MeasurementData, temperature: &str, humidity: &str) -> (first:
        Result<Action, LogError>)
        ensures
            final(self).clock() == old(self).clock(),
            first is Ok <==> old(self)@.phase is Idle && record_line(
                data.co2,
                temperature.spec_bytes(),
                humidity.spec_bytes(),
                data.timestamp@,
            ).len() <= LINE_CAPACITY,
            match first {
                Ok(action) => action == Action::Mount && final(self)@ == begun(
                    record_line(
                        data.co2,
                        temperature.spec_bytes(),
                        humidity.spec_bytes(),
                        data.timestamp@,
                    ),
                ),
                Err(e) => final(self)@ == old(self)@ && e == if old(self)@.phase is Idle {
                    LogError::LineTooLong
                } else {
                    LogError::Busy
                },
            },
    {
        match self.phase {
            Phase::Idle => {},
            _ => {
                return Err(LogError::Busy);
            },
        }
        match data_line(data.co2, temperature, humidity, &data.timestamp) {
            None => Err(LogError::LineTooLong),
            Some(line) => {
                self.line = line;
                self.phase = Phase::Mounting;
                self.failure = None;
                self.line_lost = false;
                Ok(Action::Mount)
            },
        }
    }

    /// The operation that is asked for now.
    pub fn pending(&self) -> (action: Action)
        ensures
            action == self@.pending(),
    {
        match self.phase {
            Phase::Idle => Action::Finish(
                match self.failure {
                    None => Ok(()),
                    Some(e) => Err(e),
                },
            ),
            Phase::Mounting => Action::Mount,
            Phase::OpeningRoot => Action::OpenRootDir,
            Phase::Looking => Action::FindFile,
            Phase::Creating => Action::CreateFile,
            Phase::WritingHeader => Action::WriteHeader,
            Phase::Opening => Action::OpenFile,
            Phase::WritingLine => Action::WriteLine,
            Phase::ClosingFile => Action::CloseFile,
            Phase::ClosingDir => Action::CloseDir,
            Phase::Releasing => Action::Release,
        }
    }

    /// Takes the reply to the operation asked for last and asks for the
    /// next one.
    pub fn advance(&mut self, reply: Reply) -> (next: Action)
        ensures
            final(self).clock() == old(self).clock(),
            final(self)@ == old(self)@.step(reply),
            next == final(self)@.pending(),
    {
        let done = match reply {
            Reply::Done => true,
            Reply::Failed => false,
        };
        match self.phase {
            Phase::Idle => {},
            Phase::Mounting => {
                if done {
                    self.phase = Phase::OpeningRoot;
                } else {
                    self.phase = Phase::Idle;
                    self.failure = Some(LogError::MediumUnavailable);
                }
            },
            Phase::OpeningRoot => {
                if done {
                    self.phase = Phase::Looking;
                } else {
                    self.phase = Phase::Releasing;
                    self.failure = Some(LogError::MediumUnavailable);
                }
            },
            Phase::Looking => {
                if done {
                    self.phase = Phase::Opening;
                } else {
                    self.phase = Phase::Creating;
                }
            },
            Phase::Creating => {
                if done {
                    self.phase = Phase::WritingHeader;
                } else {
                    self.phase = Phase::ClosingDir;
                    self.failure = Some(LogError::FileUnavailable);
                }
            },
            Phase::WritingHeader => {
                if done {
                    self.phase = Phase::WritingLine;
                } else {
                    self.phase = Phase::ClosingFile;
                    self.failure = Some(LogError::HeaderNotWritten);
                }
            },
            Phase::Opening => {
                if done {
                    self.phase = Phase::WritingLine;
                } else {
                    self.phase = Phase::ClosingDir;
                    self.failure = Some(LogError::FileUnavailable);
                }
            },
            Phase::WritingLine => {
                self.phase = Phase::ClosingFile;
                self.line_lost = !done;
            },
            Phase::ClosingFile => {
                self.phase = Phase::ClosingDir;
            },
            Phase::ClosingDir => {
                self.phase = Phase::Releasing;
            },
            Phase::Releasing => {
                self.phase = Phase::Idle;
            },
        }
        self.pending()
    }

    /// The line of the record at hand, to be written for
    /// `Action::WriteLine`.
    pub fn line(&self) -> (text: &str)
        ensures
            text.spec_bytes() == self@.line,
    {
        line_text(&self.line)
    }

    /// Whether the card refused the line of the record taken last. The
    /// record then counts as appended all the same.
    pub fn line_lost(&self) -> (lost: bool)
        ensures
            lost == self@.line_lost,
    {
        self.line_lost
    }
}

} // verus!
