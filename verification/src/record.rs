//! A formatted log record as the dispatcher receives it: already leveled,
//! with its origin module and message rendered to plain text.

use vstd::prelude::*;

use crate::severity::Severity;

verus! {

/// Mathematical model of a [`LogRecord`]: the severity and the character
/// sequences of the module and message.
pub struct RecordModel {
    pub level: Severity,
    pub module: Seq<char>,
    pub message: Seq<char>,
}

/// One log record handed to the dispatcher: a severity, the module that
/// produced it, and the message text.
pub struct LogRecord {
    pub level: Severity,
    pub module: String,
    pub message: String,
}

impl View for LogRecord {
    type V = RecordModel;

    open spec fn view(&self) -> RecordModel {
        RecordModel { level: self.level, module: self.module@, message: self.message@ }
    }
}

impl LogRecord {
    /// Build a record from its parts.
    pub fn new(level: Severity, module: String, message: String) -> (r: LogRecord)
        ensures
            r@ == (RecordModel { level, module: module@, message: message@ }),
    {
        LogRecord { level, module, message }
    }

    /// An owned copy of this record.
    pub fn duplicate(&self) -> (r: LogRecord)
        ensures
            r@ == self@,
    {
        LogRecord {
            level: self.level,
            module: self.module.clone(),
            message: self.message.clone(),
        }
    }
}

/// Whether two records carry the same severity, module and message.
pub fn records_equal(a: &LogRecord, b: &LogRecord) -> (eq: bool)
    ensures
        eq == (a@ == b@),
{
    let same = a.level == b.level && a.module == b.module && a.message == b.message;
    proof {
        if same {
            assert(a@ == b@);
        } else {
            assert(a@.level == a.level && b@.level == b.level);
            assert(a@.module == a.module@ && b@.module == b.module@);
            assert(a@.message == a.message@ && b@.message == b.message@);
        }
    }
    same
}

} // verus!
