//! Formatting functions: collaborators that render one record's fields to a
//! line of text, without the trailing line terminator — the dispatcher
//! appends the terminator itself.

use vstd::prelude::*;
use vstd::string::StringExecFns;

use crate::ioerr::make_io_error;
use crate::record::LogRecord;
use crate::record::RecordModel;

verus! {

/// A formatting function: renders one record to a line of text, without a
/// trailing line terminator. Implementations state in `spec_rendered` and
/// `spec_renders` what they produce and when they succeed; a formatter is
/// immutable once constructed.
pub trait FormatFunction: Sized {
    /// The line this formatter renders for a record (no terminator).
    spec fn spec_rendered(&self, r: RecordModel) -> Seq<char>;

    /// Whether rendering succeeds for a record.
    spec fn spec_renders(&self, r: RecordModel) -> bool;

    /// Render one record, without a trailing line terminator.
    fn render(&self, record: &LogRecord) -> (out: Result<String, std::io::Error>)
        ensures
            out is Ok <==> self.spec_renders(record@),
            out is Ok ==> out->Ok_0@ == self.spec_rendered(record@),
    ;
}

/// The default formatter: renders `"{level}: {message}"`.
pub struct LevelMessageFormat;

impl FormatFunction for LevelMessageFormat {
    open spec fn spec_rendered(&self, r: RecordModel) -> Seq<char> {
        r.level.spec_name() + ": "@ + r.message
    }

    open spec fn spec_renders(&self, r: RecordModel) -> bool {
        true
    }

    fn render(&self, record: &LogRecord) -> (out: Result<String, std::io::Error>) {
        let mut line = String::new();
        line.append(record.level.name());
        line.append(": ");
        line.append(record.message.as_str());
        proof {
            assert(line@ =~= record@.level.spec_name() + ": "@ + record@.message);
        }
        Ok(line)
    }
}

/// A formatter that fails on every record: test support for the path where
/// the render step itself reports an error.
pub struct FailingFormat;

impl FormatFunction for FailingFormat {
    open spec fn spec_rendered(&self, r: RecordModel) -> Seq<char> {
        Seq::empty()
    }

    open spec fn spec_renders(&self, r: RecordModel) -> bool {
        false
    }

    fn render(&self, record: &LogRecord) -> (out: Result<String, std::io::Error>) {
        Err(make_io_error())
    }
}

} // verus!
