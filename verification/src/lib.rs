//! Sequential download runner with a log sink.
//!
//! The crate holds the decisions of an interactive front-end for the `lux`
//! downloader: what the user is asked, which command line fetches which
//! job, which status line follows which outcome, and when the log sink
//! stops. Prompts, subprocesses and the channel between the two tasks belong
//! to the program around it, which does what the crate names and tells it
//! how that ended.
//!
//! - [`model`]: the records of what a source offers.
//! - [`job`]: the streams that the user chose.
//! - [`selection`]: the questions before the download, and the two ways in
//!   which the program ends without one.
//! - [`command`]: the downloader's command lines.
//! - [`message`]: the status lines, the sentinel and the banner.
//! - [`driver`]: the download driver, step by step.
//! - [`sink`]: the log sink, step by step.
//! - [`run`]: what holds of whole runs of driver and sink.
//! - [`text`]: integers in base ten.

pub mod command;
pub mod driver;
pub mod job;
pub mod message;
pub mod model;
pub mod run;
pub mod selection;
pub mod sink;
pub mod text;
