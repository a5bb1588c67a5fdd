//! The console error stream: a process-wide channel supporting line writes
//! and flush. Modeled as the sequence of complete lines emitted so far; a
//! line counts as emitted only when the whole write, terminator included,
//! succeeded. The stream buffers nothing of its own in this model, so a
//! flush leaves the emitted lines unchanged.

use vstd::prelude::*;
use vstd::string::StringExecFns;

use crate::ioerr::make_io_error;

verus! {

/// The newline terminator the dispatcher appends to every emitted line.
pub open spec fn newline() -> Seq<char> {
    seq!['\n']
}

/// A console error stream. `Stderr` is the process's standard error stream,
/// with a ghost transcript of the lines delivered to it; `Recorder` keeps the
/// emitted lines in memory for tests; `Failing` refuses every operation —
/// test support for the path where the console write fails.
pub enum ConsoleSink {
    Stderr(Ghost<Seq<Seq<char>>>),
    Recorder(Vec<String>),
    Failing,
}

/// Relies on `std::io::Write::write_all` on the process's standard error
/// stream: on `Ok` the entire buffer was written. Nothing more can be
/// promised of a process-wide stream.
#[verifier::external_body]
fn stderr_write_all(text: &str) -> (res: Result<(), std::io::Error>) {
    std::io::Write::write_all(&mut std::io::stderr(), text.as_bytes())
}

/// Relies on `std::io::Write::flush` on the process's standard error stream.
#[verifier::external_body]
fn stderr_flush() -> (res: Result<(), std::io::Error>) {
    std::io::Write::flush(&mut std::io::stderr())
}

impl ConsoleSink {
    /// The complete lines emitted on this stream so far, oldest first, each
    /// including its terminator.
    pub open spec fn lines(&self) -> Seq<Seq<char>> {
        match *self {
            ConsoleSink::Stderr(transcript) => transcript@,
            ConsoleSink::Recorder(recorded) => recorded@.map_values(|s: String| s@),
            ConsoleSink::Failing => Seq::empty(),
        }
    }

    /// The process's standard error stream, with an empty transcript.
    pub fn stderr_stream() -> (c: ConsoleSink)
        ensures
            (c) is Stderr,
            c.lines() == Seq::<Seq<char>>::empty(),
    {
        ConsoleSink::Stderr(Ghost(Seq::empty()))
    }

    /// An in-memory stream that records every emitted line: test support.
    pub fn recorder() -> (c: ConsoleSink)
        ensures
            (c) is Recorder,
            c.lines() == Seq::<Seq<char>>::empty(),
    {
        ConsoleSink::Recorder(Vec::new())
    }

    /// Emit one line: `text` followed by a single line terminator. On `Ok`
    /// the whole line was delivered; on `Err` no complete line was.
    pub fn write_line(&mut self, text: &str) -> (res: Result<(), std::io::Error>)
        ensures
            res is Ok ==> final(self).lines() == old(self).lines().push(text@ + newline()),
            res is Err ==> final(self).lines() == old(self).lines(),
            (*old(self)) is Recorder ==> res is Ok,
            (*old(self)) is Failing ==> res is Err,
            (*final(self)) is Stderr == (*old(self)) is Stderr,
            (*final(self)) is Recorder == (*old(self)) is Recorder,
            (*final(self)) is Failing == (*old(self)) is Failing,
    {
        let mut line = String::from_str(text);
        line.append("\n");
        proof {
            reveal_strlit("\n");
            assert(line@ =~= text@ + newline());
        }
        match self {
            ConsoleSink::Stderr(transcript) => {
                let res = stderr_write_all(line.as_str());
                match res {
                    Ok(()) => {
                        *transcript = Ghost(transcript@.push(line@));
                        Ok(())
                    },
                    Err(e) => Err(e),
                }
            },
            ConsoleSink::Recorder(recorded) => {
                recorded.push(line);
                proof {
                    assert(self.lines() =~= old(self).lines().push(text@ + newline()));
                }
                Ok(())
            },
            ConsoleSink::Failing => Err(make_io_error()),
        }
    }

    /// Flush the stream. The model holds only complete lines, so a flush
    /// changes nothing observable; a failing stream reports failure.
    pub fn flush(&mut self) -> (res: Result<(), std::io::Error>)
        ensures
            *final(self) == *old(self),
            (*old(self)) is Recorder ==> res is Ok,
            (*old(self)) is Failing ==> res is Err,
    {
        match self {
            ConsoleSink::Stderr(_) => stderr_flush(),
            ConsoleSink::Recorder(_) => Ok(()),
            ConsoleSink::Failing => Err(make_io_error()),
        }
    }

    /// The lines an in-memory recorder holds: test support. Reports nothing
    /// for the other stream kinds.
    pub fn recorded_lines(&self) -> (lines: Option<&Vec<String>>)
        ensures
            (*self) is Recorder ==> (lines matches Option::Some(v)
                && v@.map_values(|s: String| s@) == self.lines()),
            !((*self) is Recorder) ==> lines is None,
    {
        match self {
            ConsoleSink::Recorder(recorded) => Option::Some(recorded),
            _ => Option::None,
        }
    }
}

} // verus!
