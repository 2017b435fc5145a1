//! Core of a CO2 data logger: decoding the battery-backed clock, building the
//! CSV log line, the append protocol of the log file, the mailbox that holds
//! the latest reading, and the two activities that sample and display.

pub mod adalogger;
pub mod clock;
pub mod display;
pub mod line;
pub mod mailbox;
pub mod medium;
pub mod record;
pub mod sampler;
pub mod text;
