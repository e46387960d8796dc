//! Time-based rotation of log files.
//!
//! A stream of log lines goes to one file after another: a new file for
//! every minute, hour or day, named after the moment it was opened. The
//! name is all that is kept of that moment, and it is read back from the
//! name whenever something is written.
//!
//! The modules, leaves first:
//! - `calendar`: moments, and the seconds between two of them;
//! - `digits`: numbers in a fixed count of digits;
//! - `template`: path templates, which render a moment into a file name and
//!   extract it again;
//! - `roundtrip`: the proof that extraction undoes rendering;
//! - `layout`: where the timestamp goes in a path;
//! - `policy`: the rotation policy of one stream;
//! - `period`: the policies by granularity, behind one trait;
//! - `checker`: what a rolling writer asks of a policy, buffering, and the
//!   file that never rotates;
//! - `rolling`: the steps of the rolling writer.
//!
//! The library decides and names; it opens no file and takes no lock. The
//! program around it performs what a [`rolling::Action`] asks for and
//! answers with an [`rolling::Event`].

pub mod calendar;
pub mod checker;
pub mod digits;
pub mod layout;
pub mod period;
pub mod policy;
pub mod rolling;
pub mod roundtrip;
pub mod template;

pub use calendar::Timestamp;
pub use checker::{Buffered, Checker, ConstFile, WriterPlan};
pub use period::{Daily, Hourly, Minute, Period};
pub use policy::{ConfigError, Granularity, PeriodError, RotationPolicy};
pub use rolling::{Action, Event, Fault, Phase, Rolling};
pub use template::{Extracted, Field, ParseError, PathTemplate, TemplateError};
