//! The file-sink interface the dispatcher writes through, and an in-memory
//! sink for tests. The sink owns its formatting function; buffering, rotation
//! and backup management are the sink's own responsibility, modeled here only
//! as how many written records it has made durable.

use vstd::prelude::*;

use crate::format::FormatFunction;
use crate::record::LogRecord;
use crate::record::RecordModel;
use crate::record::records_equal;

verus! {

/// A file-backed log sink, for users of the library to implement. Its model
/// is the sequence of records handed to it (`history`) and how many of those
/// it has made durable (`durable_len`); its formatting function is immutable,
/// which `write` and `flush` state by preserving `renders` and `rendered`.
pub trait LogWriter: Sized {
    /// The records handed to the sink so far, oldest first.
    spec fn history(&self) -> Seq<RecordModel>;

    /// How many of the written records the sink has made durable.
    spec fn durable_len(&self) -> int;

    /// The sink's internal well-formedness.
    spec fn inv(&self) -> bool;

    /// The line the sink's own formatting function renders for a record
    /// (no terminator).
    spec fn rendered(&self, r: RecordModel) -> Seq<char>;

    /// Whether the sink's formatting function succeeds on a record.
    spec fn renders(&self, r: RecordModel) -> bool;

    /// Render a record with the sink's own formatting function, for
    /// duplication to the console.
    fn format_record(&self, record: &LogRecord) -> (out: Result<String, std::io::Error>)
        requires
            self.inv(),
        ensures
            out is Ok <==> self.renders(record@),
            out is Ok ==> out->Ok_0@ == self.rendered(record@),
    ;

    /// Hand one record to the sink.
    fn write(&mut self, record: &LogRecord) -> (res: Result<(), std::io::Error>)
        requires
            old(self).inv(),
        ensures
            final(self).inv(),
            res is Ok ==> final(self).history() == old(self).history().push(record@),
            res is Err ==> final(self).history() == old(self).history(),
            forall|r: RecordModel| #[trigger] final(self).rendered(r) == old(self).rendered(r),
            forall|r: RecordModel| #[trigger] final(self).renders(r) == old(self).renders(r),
    ;

    /// Make every record written so far durable.
    fn flush(&mut self) -> (res: Result<(), std::io::Error>)
        requires
            old(self).inv(),
        ensures
            final(self).inv(),
            final(self).history() == old(self).history(),
            res is Ok ==> final(self).durable_len() == final(self).history().len(),
            res is Err ==> final(self).durable_len() == old(self).durable_len(),
            forall|r: RecordModel| #[trigger] final(self).rendered(r) == old(self).rendered(r),
            forall|r: RecordModel| #[trigger] final(self).renders(r) == old(self).renders(r),
    ;

    /// Test-only history inspection: whether the records handed to the sink
    /// are exactly `expected`, in order.
    fn validate(&self, expected: &Vec<LogRecord>) -> (ok: bool)
        requires
            self.inv(),
        ensures
            ok == (self.history() == expected@.map_values(|r: LogRecord| r@)),
    ;
}

/// An in-memory file sink: keeps every record handed to it, and counts how
/// many a flush has made durable. The test-support stand-in for a real
/// file-backed sink.
pub struct RecordingFileWriter<F: FormatFunction> {
    format: F,
    records: Vec<LogRecord>,
    durable: usize,
}

impl<F: FormatFunction> RecordingFileWriter<F> {
    /// An empty sink configured with `format`.
    pub fn new(format: F) -> (w: RecordingFileWriter<F>)
        ensures
            w.inv(),
            w.history() == Seq::<RecordModel>::empty(),
            w.durable_len() == 0,
            forall|r: RecordModel| #[trigger] w.rendered(r) == format.spec_rendered(r),
            forall|r: RecordModel| #[trigger] w.renders(r) == format.spec_renders(r),
    {
        let w = RecordingFileWriter { format, records: Vec::new(), durable: 0 };
        proof {
            assert(w.history() =~= Seq::<RecordModel>::empty());
        }
        w
    }

    /// The records handed to this sink so far: test support.
    pub fn records(&self) -> (records: &Vec<LogRecord>)
        ensures
            records@.map_values(|r: LogRecord| r@) == self.history(),
    {
        &self.records
    }

    /// How many records a flush has made durable: test support.
    pub fn durable_count(&self) -> (n: usize)
        ensures
            n as int == self.durable_len(),
    {
        self.durable
    }
}

impl<F: FormatFunction> LogWriter for RecordingFileWriter<F> {
    closed spec fn history(&self) -> Seq<RecordModel> {
        self.records@.map_values(|r: LogRecord| r@)
    }

    closed spec fn durable_len(&self) -> int {
        self.durable as int
    }

    closed spec fn inv(&self) -> bool {
        self.durable <= self.records@.len()
    }

    closed spec fn rendered(&self, r: RecordModel) -> Seq<char> {
        self.format.spec_rendered(r)
    }

    closed spec fn renders(&self, r: RecordModel) -> bool {
        self.format.spec_renders(r)
    }

    fn format_record(&self, record: &LogRecord) -> (out: Result<String, std::io::Error>) {
        self.format.render(record)
    }

    fn write(&mut self, record: &LogRecord) -> (res: Result<(), std::io::Error>)
        ensures
            res is Ok,
    {
        self.records.push(record.duplicate());
        proof {
            assert(self.history() =~= old(self).history().push(record@));
        }
        Ok(())
    }

    fn flush(&mut self) -> (res: Result<(), std::io::Error>)
        ensures
            res is Ok,
    {
        self.durable = self.records.len();
        Ok(())
    }

    fn validate(&self, expected: &Vec<LogRecord>) -> (ok: bool) {
        let ghost wanted = expected@.map_values(|r: LogRecord| r@);
        if self.records.len() != expected.len() {
            proof {
                assert(self.history().len() != wanted.len());
            }
            return false;
        }
        let n = self.records.len();
        let mut i: usize = 0;
        while i < n
            invariant
                n == self.records@.len(),
                n == expected@.len(),
                wanted == expected@.map_values(|r: LogRecord| r@),
                0 <= i <= n,
                forall|j: int| 0 <= j < i ==> self.records@[j]@ == expected@[j]@,
            decreases n - i,
        {
            if !records_equal(&self.records[i], &expected[i]) {
                proof {
                    assert(wanted.len() == expected@.len());
                    assert(self.history()[i as int] == self.records@[i as int]@);
                    assert(wanted[i as int] == expected@[i as int]@);
                    assert(self.history()[i as int] != wanted[i as int]);
                }
                return false;
            }
            i += 1;
        }
        proof {
            assert(self.history() =~= wanted);
        }
        true
    }
}

} // verus!
