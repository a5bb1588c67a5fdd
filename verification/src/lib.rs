//! Output routing for a logging library: given an already-formatted log
//! record, decide which sink(s) receive it and in what order.
//!
//! The crate centers on [`primary_writer::PrimaryWriter`], a two-variant
//! dispatcher that sends each record either to the console error stream or to
//! a file-backed sink, optionally mirroring file-bound records to the console
//! according to a [`severity::DuplicationPolicy`].

pub mod console;
pub mod format;
pub mod ioerr;
pub mod log_writer;
pub mod primary_writer;
pub mod record;
pub mod severity;
