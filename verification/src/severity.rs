//! Log severities and the duplication policy: a total order over severities
//! plus two boundary values, used as a pure predicate by the dispatcher.

use vstd::prelude::*;

verus! {

/// The ranked importance of a log record, most severe first:
/// `Error > Warn > Info > Debug > Trace`.
#[derive(Clone, Copy, PartialEq, Eq, Structural, Debug)]
pub enum Severity {
    Error,
    Warn,
    Info,
    Debug,
    Trace,
}

impl Severity {
    /// Position in the severity order: a lower rank is more severe.
    pub open spec fn rank(self) -> int {
        match self {
            Severity::Error => 0,
            Severity::Warn => 1,
            Severity::Info => 2,
            Severity::Debug => 3,
            Severity::Trace => 4,
        }
    }

    /// The severity's name as it appears in rendered log lines.
    pub open spec fn spec_name(self) -> Seq<char> {
        match self {
            Severity::Error => "Error"@,
            Severity::Warn => "Warn"@,
            Severity::Info => "Info"@,
            Severity::Debug => "Debug"@,
            Severity::Trace => "Trace"@,
        }
    }

    /// Executable counterpart of [`Severity::rank`].
    pub fn rank_value(self) -> (r: u8)
        ensures
            r as int == self.rank(),
    {
        match self {
            Severity::Error => 0,
            Severity::Warn => 1,
            Severity::Info => 2,
            Severity::Debug => 3,
            Severity::Trace => 4,
        }
    }

    /// The severity's name as it appears in rendered log lines.
    pub fn name(self) -> (s: &'static str)
        ensures
            s@ == self.spec_name(),
    {
        match self {
            Severity::Error => "Error",
            Severity::Warn => "Warn",
            Severity::Info => "Info",
            Severity::Debug => "Debug",
            Severity::Trace => "Trace",
        }
    }
}

/// Decides, per record, whether a file-bound record is also mirrored to the
/// console error stream. Fixed at construction; a pure function of
/// (policy, record severity).
#[derive(Clone, Copy, PartialEq, Eq, Structural, Debug)]
pub enum DuplicationPolicy {
    /// Never mirror.
    Never,
    /// Mirror exactly the `Error` severity — deliberately narrower than
    /// "at or above `Error`"; this asymmetry is load-bearing.
    OnErrorOnly,
    /// Mirror records at severity `Warn` or more severe.
    OnWarnAndAbove,
    /// Mirror records at severity `Info` or more severe.
    OnInfoAndAbove,
    /// Mirror records at severity `Debug` or more severe.
    OnDebugAndAbove,
    /// Mirror every record.
    Always,
}

/// Whether a record of severity `severity` is mirrored to the console under
/// `policy`.
pub open spec fn spec_should_duplicate(policy: DuplicationPolicy, severity: Severity) -> bool {
    match policy {
        DuplicationPolicy::Never => false,
        DuplicationPolicy::OnErrorOnly => severity == Severity::Error,
        DuplicationPolicy::OnWarnAndAbove => severity.rank() <= Severity::Warn.rank(),
        DuplicationPolicy::OnInfoAndAbove => severity.rank() <= Severity::Info.rank(),
        DuplicationPolicy::OnDebugAndAbove => severity.rank() <= Severity::Debug.rank(),
        DuplicationPolicy::Always => true,
    }
}

/// Evaluate the duplication predicate, afresh for every record.
#[verifier::when_used_as_spec(spec_should_duplicate)]
pub fn should_duplicate(policy: DuplicationPolicy, severity: Severity) -> (dup: bool)
    ensures
        dup == spec_should_duplicate(policy, severity),
{
    match policy {
        DuplicationPolicy::Never => false,
        DuplicationPolicy::OnErrorOnly => matches!(severity, Severity::Error),
        DuplicationPolicy::OnWarnAndAbove => severity.rank_value() <= 1,
        DuplicationPolicy::OnInfoAndAbove => severity.rank_value() <= 2,
        DuplicationPolicy::OnDebugAndAbove => severity.rank_value() <= 3,
        DuplicationPolicy::Always => true,
    }
}

/// Law: under the `Never` policy no record is duplicated, whatever its
/// severity.
pub proof fn never_duplicates(severity: Severity)
    ensures
        !spec_should_duplicate(DuplicationPolicy::Never, severity),
{
}

/// Law: under the `Always` policy every record is duplicated, whatever its
/// severity.
pub proof fn always_duplicates(severity: Severity)
    ensures
        spec_should_duplicate(DuplicationPolicy::Always, severity),
{
}

} // verus!
