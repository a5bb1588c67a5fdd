//! The sink dispatcher: a closed two-variant type that sends each record
//! either to the console error stream alone, or to a file-backed sink with
//! optional mirroring to the console. All routing, ordering and flush
//! semantics across the two channels live here.

use vstd::prelude::*;

use crate::console::ConsoleSink;
use crate::console::newline;
use crate::format::FormatFunction;
use crate::log_writer::LogWriter;
use crate::record::LogRecord;
use crate::record::RecordModel;
use crate::severity::DuplicationPolicy;
use crate::severity::should_duplicate;
use crate::severity::spec_should_duplicate;

verus! {

/// What one `write` may do to a console-only route: if the record renders,
/// either the whole line went out (`ok`) or the console refused it and
/// nothing was emitted; if rendering fails, the call fails and the console is
/// untouched.
pub open spec fn console_write_effect(
    renders: bool,
    line: Seq<char>,
    pre_lines: Seq<Seq<char>>,
    post_lines: Seq<Seq<char>>,
    ok: bool,
) -> bool {
    if renders {
        (ok && post_lines == pre_lines.push(line)) || (!ok && post_lines == pre_lines)
    } else {
        !ok && post_lines == pre_lines
    }
}

/// What one `write` may do to a file-backed route. Without duplication the
/// console is untouched and the record reaches the file exactly on success.
/// With duplication, the console copy comes strictly first: the file history
/// can only grow once the console line is out, and a failed console write
/// (or a failed render) leaves the file history unchanged and fails the call.
pub open spec fn file_write_effect(
    dup: bool,
    renders: bool,
    line: Seq<char>,
    pre_lines: Seq<Seq<char>>,
    post_lines: Seq<Seq<char>>,
    pre_history: Seq<RecordModel>,
    post_history: Seq<RecordModel>,
    rec: RecordModel,
    ok: bool,
) -> bool {
    if !dup {
        post_lines == pre_lines && if ok {
            post_history == pre_history.push(rec)
        } else {
            post_history == pre_history
        }
    } else if !renders {
        !ok && post_lines == pre_lines && post_history == pre_history
    } else {
        (!ok && post_lines == pre_lines && post_history == pre_history) || (post_lines
            == pre_lines.push(line) && if ok {
            post_history == pre_history.push(rec)
        } else {
            post_history == pre_history
        })
    }
}

/// What one `write` may do to either route.
pub open spec fn write_effect(
    dup: bool,
    renders: bool,
    line: Seq<char>,
    pre_lines: Seq<Seq<char>>,
    post_lines: Seq<Seq<char>>,
    pre_history: Seq<RecordModel>,
    post_history: Seq<RecordModel>,
    rec: RecordModel,
    file_backed: bool,
    ok: bool,
) -> bool {
    if file_backed {
        file_write_effect(
            dup,
            renders,
            line,
            pre_lines,
            post_lines,
            pre_history,
            post_history,
            rec,
            ok,
        )
    } else {
        post_history == pre_history && console_write_effect(
            renders,
            line,
            pre_lines,
            post_lines,
            ok,
        )
    }
}

/// What one successful `flush` does: nothing new is emitted or written, and
/// every record in the file history is durable afterwards.
pub open spec fn flush_ok_effect(
    pre_lines: Seq<Seq<char>>,
    post_lines: Seq<Seq<char>>,
    pre_history: Seq<RecordModel>,
    post_history: Seq<RecordModel>,
    post_durable: int,
) -> bool {
    post_lines == pre_lines && post_history == pre_history && post_durable
        == post_history.len()
}

/// Law (ordering): on a file-backed route with duplication firing, one
/// `write` grows the file history only if the console line was emitted first,
/// and then both sides carry exactly the new record's line and record.
pub proof fn duplication_reaches_console_first(
    dup: bool,
    renders: bool,
    line: Seq<char>,
    pre_lines: Seq<Seq<char>>,
    post_lines: Seq<Seq<char>>,
    pre_history: Seq<RecordModel>,
    post_history: Seq<RecordModel>,
    rec: RecordModel,
    ok: bool,
)
    requires
        file_write_effect(
            dup,
            renders,
            line,
            pre_lines,
            post_lines,
            pre_history,
            post_history,
            rec,
            ok,
        ),
        dup,
        post_history != pre_history,
    ensures
        ok,
        post_lines == pre_lines.push(line),
        post_history == pre_history.push(rec),
{
}

/// Law (idempotence): a second successful `flush` with no intervening `write`
/// leaves exactly the state the first one left.
pub proof fn flush_twice_is_flush_once(
    lines0: Seq<Seq<char>>,
    lines1: Seq<Seq<char>>,
    lines2: Seq<Seq<char>>,
    history0: Seq<RecordModel>,
    history1: Seq<RecordModel>,
    history2: Seq<RecordModel>,
    durable1: int,
    durable2: int,
)
    requires
        flush_ok_effect(lines0, lines1, history0, history1, durable1),
        flush_ok_effect(lines1, lines2, history1, history2, durable2),
    ensures
        lines2 == lines1,
        history2 == history1,
        durable2 == durable1,
{
}

/// The console-only route: writes every record to the console error stream
/// with its own formatting function.
pub struct StdErrWriter<F: FormatFunction> {
    format: F,
    console: ConsoleSink,
}

impl<F: FormatFunction> StdErrWriter<F> {
    /// The route's formatting function, immutable once constructed.
    pub closed spec fn formatter(&self) -> F {
        self.format
    }

    /// The lines emitted on the route's console stream so far.
    pub closed spec fn console_lines(&self) -> Seq<Seq<char>> {
        self.console.lines()
    }

    /// The route's console stream.
    pub closed spec fn console_stream(&self) -> ConsoleSink {
        self.console
    }

    /// Render the record and emit it on the console error stream, with a
    /// single line terminator appended.
    fn write(&mut self, record: &LogRecord) -> (res: Result<(), std::io::Error>)
        ensures
            final(self).formatter() == old(self).formatter(),
            (final(self).console_stream() is Recorder) == (old(self).console_stream() is Recorder),
            old(self).console_stream() is Recorder && old(self).formatter().spec_renders(record@)
                ==> res is Ok,
            console_write_effect(
                old(self).formatter().spec_renders(record@),
                old(self).formatter().spec_rendered(record@) + newline(),
                old(self).console_lines(),
                final(self).console_lines(),
                res is Ok,
            ),
    {
        match self.format.render(record) {
            Ok(line) => self.console.write_line(line.as_str()),
            Err(e) => Err(e),
        }
    }

    /// Flush the console error stream.
    fn flush(&mut self) -> (res: Result<(), std::io::Error>)
        ensures
            final(self).formatter() == old(self).formatter(),
            final(self).console_stream() == old(self).console_stream(),
            final(self).console_lines() == old(self).console_lines(),
            old(self).console_stream() is Recorder ==> res is Ok,
    {
        self.console.flush()
    }
}

/// The file-backed route: writes every record to the owned file sink, and,
/// when the duplication policy fires, mirrors it to the console error stream
/// first, rendered with the file sink's own formatting function.
pub struct ExtendedFileWriter<W: LogWriter> {
    duplicate: DuplicationPolicy,
    w: W,
    console: ConsoleSink,
}

impl<W: LogWriter> ExtendedFileWriter<W> {
    /// The route's duplication policy, fixed at construction.
    pub closed spec fn policy(&self) -> DuplicationPolicy {
        self.duplicate
    }

    /// The records handed to the file sink so far.
    pub closed spec fn file_history(&self) -> Seq<RecordModel> {
        self.w.history()
    }

    /// How many records the file sink has made durable.
    pub closed spec fn file_durable(&self) -> int {
        self.w.durable_len()
    }

    /// The lines emitted on the route's console stream so far.
    pub closed spec fn console_lines(&self) -> Seq<Seq<char>> {
        self.console.lines()
    }

    /// The route's console stream.
    pub closed spec fn console_stream(&self) -> ConsoleSink {
        self.console
    }

    /// Whether the file sink's formatting function succeeds on a record.
    pub closed spec fn renders(&self, r: RecordModel) -> bool {
        self.w.renders(r)
    }

    /// The line the file sink's formatting function renders for a record.
    pub closed spec fn rendered(&self, r: RecordModel) -> Seq<char> {
        self.w.rendered(r)
    }

    /// The route's well-formedness: its file sink is well-formed.
    pub closed spec fn inv(&self) -> bool {
        self.w.inv()
    }

    /// Duplicate to the console if the policy fires, then hand the record to
    /// the file sink. A failed console copy fails the call before the file
    /// sink is touched.
    fn write(&mut self, record: &LogRecord) -> (res: Result<(), std::io::Error>)
        requires
            old(self).inv(),
        ensures
            final(self).inv(),
            final(self).policy() == old(self).policy(),
            forall|r: RecordModel| #[trigger] final(self).renders(r) == old(self).renders(r),
            forall|r: RecordModel| #[trigger] final(self).rendered(r) == old(self).rendered(r),
            (final(self).console_stream() is Recorder) == (old(self).console_stream() is Recorder),
            old(self).console_stream() is Recorder
                && spec_should_duplicate(old(self).policy(), record@.level)
                && old(self).renders(record@)
                ==> final(self).console_lines()
                    == old(self).console_lines().push(old(self).rendered(record@) + newline()),
            file_write_effect(
                spec_should_duplicate(old(self).policy(), record@.level),
                old(self).renders(record@),
                old(self).rendered(record@) + newline(),
                old(self).console_lines(),
                final(self).console_lines(),
                old(self).file_history(),
                final(self).file_history(),
                record@,
                res is Ok,
            ),
    {
        if should_duplicate(self.duplicate, record.level) {
            match self.w.format_record(record) {
                Ok(line) => {
                    match self.console.write_line(line.as_str()) {
                        Ok(()) => {},
                        Err(e) => {
                            return Err(e);
                        },
                    }
                },
                Err(e) => {
                    return Err(e);
                },
            }
        }
        self.w.write(record)
    }

    /// Flush the file sink first, then the console error stream; stop at the
    /// first failure and surface it as-is.
    fn flush(&mut self) -> (res: Result<(), std::io::Error>)
        requires
            old(self).inv(),
        ensures
            final(self).inv(),
            final(self).policy() == old(self).policy(),
            forall|r: RecordModel| #[trigger] final(self).renders(r) == old(self).renders(r),
            forall|r: RecordModel| #[trigger] final(self).rendered(r) == old(self).rendered(r),
            final(self).file_history() == old(self).file_history(),
            final(self).console_stream() == old(self).console_stream(),
            final(self).console_lines() == old(self).console_lines(),
            res is Ok ==> flush_ok_effect(
                old(self).console_lines(),
                final(self).console_lines(),
                old(self).file_history(),
                final(self).file_history(),
                final(self).file_durable(),
            ),
            res is Err ==> final(self).file_durable() == old(self).file_durable()
                || final(self).file_durable() == final(self).file_history().len(),
            old(self).console_stream() is Recorder && res is Err ==> final(self).file_durable()
                == old(self).file_durable(),
    {
        match self.w.flush() {
            Ok(()) => self.console.flush(),
            Err(e) => Err(e),
        }
    }

    /// Test-only history inspection: delegates to the file sink's own
    /// facility, comparing the records it was handed against `expected`.
    pub fn validate_logs(&self, expected: &Vec<LogRecord>) -> (ok: bool)
        requires
            self.inv(),
        ensures
            ok == (self.file_history() == expected@.map_values(|r: LogRecord| r@)),
    {
        self.w.validate(expected)
    }
}

/// The single active output route of a logger instance: exactly one variant
/// for the instance's whole lifetime; `write`, `flush` and `validate_logs`
/// forward unchanged to the active variant.
pub enum PrimaryWriter<F: FormatFunction, W: LogWriter> {
    StdErrWriter(StdErrWriter<F>),
    ExtendedFileWriter(ExtendedFileWriter<W>),
}

impl<F: FormatFunction, W: LogWriter> PrimaryWriter<F, W> {
    /// Whether the active route is the file-backed one.
    pub open spec fn is_file_backed(&self) -> bool {
        match *self {
            PrimaryWriter::StdErrWriter(_) => false,
            PrimaryWriter::ExtendedFileWriter(_) => true,
        }
    }

    /// The dispatcher's well-formedness.
    pub open spec fn inv(&self) -> bool {
        match *self {
            PrimaryWriter::StdErrWriter(_) => true,
            PrimaryWriter::ExtendedFileWriter(ew) => ew.inv(),
        }
    }

    /// The lines emitted on the console error stream so far.
    pub open spec fn console_lines(&self) -> Seq<Seq<char>> {
        match *self {
            PrimaryWriter::StdErrWriter(sw) => sw.console_lines(),
            PrimaryWriter::ExtendedFileWriter(ew) => ew.console_lines(),
        }
    }

    /// The console stream of the active route.
    pub open spec fn console_stream(&self) -> ConsoleSink {
        match *self {
            PrimaryWriter::StdErrWriter(sw) => sw.console_stream(),
            PrimaryWriter::ExtendedFileWriter(ew) => ew.console_stream(),
        }
    }

    /// The records handed to the file sink so far; empty on the console-only
    /// route.
    pub open spec fn file_history(&self) -> Seq<RecordModel> {
        match *self {
            PrimaryWriter::StdErrWriter(_) => Seq::empty(),
            PrimaryWriter::ExtendedFileWriter(ew) => ew.file_history(),
        }
    }

    /// How many file-sink records are durable; zero on the console-only
    /// route.
    pub open spec fn file_durable(&self) -> int {
        match *self {
            PrimaryWriter::StdErrWriter(_) => 0,
            PrimaryWriter::ExtendedFileWriter(ew) => ew.file_durable(),
        }
    }

    /// Whether a record of this model reaches the console: always on the
    /// console-only route, per the duplication policy on the file-backed one.
    pub open spec fn duplicates(&self, r: RecordModel) -> bool {
        match *self {
            PrimaryWriter::StdErrWriter(_) => true,
            PrimaryWriter::ExtendedFileWriter(ew) => spec_should_duplicate(ew.policy(), r.level),
        }
    }

    /// Whether the active route's formatting function succeeds on a record.
    pub open spec fn renders(&self, r: RecordModel) -> bool {
        match *self {
            PrimaryWriter::StdErrWriter(sw) => sw.formatter().spec_renders(r),
            PrimaryWriter::ExtendedFileWriter(ew) => ew.renders(r),
        }
    }

    /// The line the active route's formatting function renders for a record.
    pub open spec fn rendered(&self, r: RecordModel) -> Seq<char> {
        match *self {
            PrimaryWriter::StdErrWriter(sw) => sw.formatter().spec_rendered(r),
            PrimaryWriter::ExtendedFileWriter(ew) => ew.rendered(r),
        }
    }

    /// The console-only route: every record goes to `console`, rendered by
    /// `format`.
    pub fn stderr(format: F, console: ConsoleSink) -> (pw: PrimaryWriter<F, W>)
        ensures
            pw.inv(),
            !pw.is_file_backed(),
            pw.console_stream() == console,
            pw.console_lines() == console.lines(),
            pw.file_history() == Seq::<RecordModel>::empty(),
            forall|r: RecordModel| #[trigger] pw.renders(r) == format.spec_renders(r),
            forall|r: RecordModel| #[trigger] pw.rendered(r) == format.spec_rendered(r),
            forall|r: RecordModel| #[trigger] pw.duplicates(r),
    {
        PrimaryWriter::StdErrWriter(StdErrWriter { format, console })
    }

    /// The file-backed route: every record goes to the owned sink `w`, and to
    /// `console` first whenever `duplicate` fires.
    pub fn file(duplicate: DuplicationPolicy, w: W, console: ConsoleSink) -> (pw: PrimaryWriter<
        F,
        W,
    >)
        requires
            w.inv(),
        ensures
            pw.inv(),
            pw.is_file_backed(),
            pw.console_stream() == console,
            pw.console_lines() == console.lines(),
            pw.file_history() == w.history(),
            pw.file_durable() == w.durable_len(),
            forall|r: RecordModel| #[trigger] pw.renders(r) == w.renders(r),
            forall|r: RecordModel| #[trigger] pw.rendered(r) == w.rendered(r),
            forall|r: RecordModel| #[trigger] pw.duplicates(r) == spec_should_duplicate(
                duplicate,
                r.level,
            ),
    {
        PrimaryWriter::ExtendedFileWriter(ExtendedFileWriter { duplicate, w, console })
    }

    /// Write out a log record on the active route.
    pub fn write(&mut self, record: &LogRecord) -> (res: Result<(), std::io::Error>)
        requires
            old(self).inv(),
        ensures
            final(self).inv(),
            final(self).is_file_backed() == old(self).is_file_backed(),
            forall|r: RecordModel| #[trigger] final(self).duplicates(r) == old(self).duplicates(r),
            forall|r: RecordModel| #[trigger] final(self).renders(r) == old(self).renders(r),
            forall|r: RecordModel| #[trigger] final(self).rendered(r) == old(self).rendered(r),
            (final(self).console_stream() is Recorder) == (old(self).console_stream() is Recorder),
            !old(self).is_file_backed() && old(self).console_stream() is Recorder
                && old(self).renders(record@) ==> res is Ok,
            old(self).console_stream() is Recorder && old(self).duplicates(record@)
                && old(self).renders(record@)
                ==> final(self).console_lines()
                    == old(self).console_lines().push(old(self).rendered(record@) + newline()),
            write_effect(
                old(self).duplicates(record@),
                old(self).renders(record@),
                old(self).rendered(record@) + newline(),
                old(self).console_lines(),
                final(self).console_lines(),
                old(self).file_history(),
                final(self).file_history(),
                record@,
                old(self).is_file_backed(),
                res is Ok,
            ),
    {
        match self {
            PrimaryWriter::StdErrWriter(sw) => sw.write(record),
            PrimaryWriter::ExtendedFileWriter(ew) => ew.write(record),
        }
    }

    /// Flush every channel the active route may have written to: the file
    /// sink first, then the console error stream.
    pub fn flush(&mut self) -> (res: Result<(), std::io::Error>)
        requires
            old(self).inv(),
        ensures
            final(self).inv(),
            final(self).is_file_backed() == old(self).is_file_backed(),
            forall|r: RecordModel| #[trigger] final(self).duplicates(r) == old(self).duplicates(r),
            forall|r: RecordModel| #[trigger] final(self).renders(r) == old(self).renders(r),
            forall|r: RecordModel| #[trigger] final(self).rendered(r) == old(self).rendered(r),
            final(self).console_stream() == old(self).console_stream(),
            final(self).console_lines() == old(self).console_lines(),
            final(self).file_history() == old(self).file_history(),
            !old(self).is_file_backed() && old(self).console_stream() is Recorder ==> res is Ok,
            old(self).console_stream() is Recorder && res is Err ==> final(self).file_durable()
                == old(self).file_durable(),
            res is Ok ==> flush_ok_effect(
                old(self).console_lines(),
                final(self).console_lines(),
                old(self).file_history(),
                final(self).file_history(),
                final(self).file_durable(),
            ),
            res is Err ==> final(self).file_durable() == old(self).file_durable()
                || final(self).file_durable() == final(self).file_history().len(),
    {
        match self {
            PrimaryWriter::StdErrWriter(sw) => sw.flush(),
            PrimaryWriter::ExtendedFileWriter(ew) => ew.flush(),
        }
    }

    /// Test-only history inspection: reports "not supported" (false) on the
    /// console-only route, and delegates to the file sink otherwise.
    pub fn validate_logs(&self, expected: &Vec<LogRecord>) -> (ok: bool)
        requires
            self.inv(),
        ensures
            self.is_file_backed() ==> ok == (self.file_history() == expected@.map_values(
                |r: LogRecord| r@,
            )),
            !self.is_file_backed() ==> !ok,
    {
        match self {
            PrimaryWriter::StdErrWriter(_) => false,
            PrimaryWriter::ExtendedFileWriter(ew) => ew.validate_logs(expected),
        }
    }

    /// The console stream of the active route: test support.
    pub fn console_sink(&self) -> (c: &ConsoleSink)
        ensures
            *c == self.console_stream(),
            c.lines() == self.console_lines(),
    {
        match self {
            PrimaryWriter::StdErrWriter(sw) => &sw.console,
            PrimaryWriter::ExtendedFileWriter(ew) => &ew.console,
        }
    }
}

} // verus!
