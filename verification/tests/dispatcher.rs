use primary_writer::console::ConsoleSink;
use primary_writer::format::FailingFormat;
use primary_writer::format::FormatFunction;
use primary_writer::format::LevelMessageFormat;
use primary_writer::log_writer::LogWriter;
use primary_writer::log_writer::RecordingFileWriter;
use primary_writer::primary_writer::PrimaryWriter;
use primary_writer::record::LogRecord;
use primary_writer::record::records_equal;
use primary_writer::severity::DuplicationPolicy;
use primary_writer::severity::Severity;

type ConsoleOnly = PrimaryWriter<LevelMessageFormat, RecordingFileWriter<LevelMessageFormat>>;
type FileBacked = PrimaryWriter<LevelMessageFormat, RecordingFileWriter<LevelMessageFormat>>;

fn record(level: Severity, message: &str) -> LogRecord {
    LogRecord::new(level, "tests".to_string(), message.to_string())
}

fn console_lines<F: FormatFunction, W: LogWriter>(writer: &PrimaryWriter<F, W>) -> Vec<String> {
    writer
        .console_sink()
        .recorded_lines()
        .expect("the tests run on a recording console")
        .clone()
}

#[test]
fn console_only_writes_rendered_line_with_terminator() {
    let mut writer: ConsoleOnly = PrimaryWriter::stderr(LevelMessageFormat, ConsoleSink::recorder());
    let res = writer.write(&record(Severity::Error, "boom"));
    assert!(res.is_ok());
    assert_eq!(console_lines(&writer), vec!["Error: boom\n".to_string()]);
}

#[test]
fn console_only_does_not_support_validation() {
    let mut writer: ConsoleOnly = PrimaryWriter::stderr(LevelMessageFormat, ConsoleSink::recorder());
    writer.write(&record(Severity::Info, "hello")).unwrap();
    assert!(!writer.validate_logs(&Vec::new()));
}

#[test]
fn console_only_propagates_render_failure() {
    let mut writer: PrimaryWriter<FailingFormat, RecordingFileWriter<LevelMessageFormat>> =
        PrimaryWriter::stderr(FailingFormat, ConsoleSink::recorder());
    let res = writer.write(&record(Severity::Error, "boom"));
    assert!(res.is_err());
    let lines = writer.console_sink().recorded_lines().unwrap();
    assert!(lines.is_empty());
}

#[test]
fn console_only_propagates_stream_failure() {
    let mut writer: ConsoleOnly = PrimaryWriter::stderr(LevelMessageFormat, ConsoleSink::Failing);
    assert!(writer.write(&record(Severity::Error, "boom")).is_err());
    assert!(writer.flush().is_err());
}

#[test]
fn file_backed_warn_floor_skips_info_and_mirrors_warn() {
    let sink = RecordingFileWriter::new(LevelMessageFormat);
    let mut writer: FileBacked = PrimaryWriter::file(
        DuplicationPolicy::OnWarnAndAbove,
        sink,
        ConsoleSink::recorder(),
    );

    let info = record(Severity::Info, "just info");
    assert!(writer.write(&info).is_ok());
    assert!(console_lines(&writer).is_empty());
    assert!(writer.validate_logs(&vec![record(Severity::Info, "just info")]));

    let warn = record(Severity::Warn, "watch out");
    assert!(writer.write(&warn).is_ok());
    assert_eq!(console_lines(&writer), vec!["Warn: watch out\n".to_string()]);
    assert!(writer.validate_logs(&vec![
        record(Severity::Info, "just info"),
        record(Severity::Warn, "watch out"),
    ]));
}

#[test]
fn file_backed_error_only_policy_skips_warn() {
    let sink = RecordingFileWriter::new(LevelMessageFormat);
    let mut writer: FileBacked = PrimaryWriter::file(
        DuplicationPolicy::OnErrorOnly,
        sink,
        ConsoleSink::recorder(),
    );

    let warn = record(Severity::Warn, "no mirror");
    assert!(writer.write(&warn).is_ok());
    assert!(console_lines(&writer).is_empty());
    assert!(writer.validate_logs(&vec![record(Severity::Warn, "no mirror")]));
}

#[test]
fn failed_console_duplication_leaves_file_untouched() {
    let sink = RecordingFileWriter::new(LevelMessageFormat);
    let mut writer: FileBacked =
        PrimaryWriter::file(DuplicationPolicy::Always, sink, ConsoleSink::Failing);

    let res = writer.write(&record(Severity::Error, "boom"));
    assert!(res.is_err());
    assert!(writer.validate_logs(&Vec::new()));
}

#[test]
fn failed_render_during_duplication_leaves_file_untouched() {
    let sink = RecordingFileWriter::new(FailingFormat);
    let mut writer: PrimaryWriter<LevelMessageFormat, RecordingFileWriter<FailingFormat>> =
        PrimaryWriter::file(DuplicationPolicy::Always, sink, ConsoleSink::recorder());

    let res = writer.write(&record(Severity::Error, "boom"));
    assert!(res.is_err());
    assert!(writer.validate_logs(&Vec::new()));
    let lines = writer.console_sink().recorded_lines().unwrap();
    assert!(lines.is_empty());
}

#[test]
fn non_duplicating_policy_never_renders_for_console() {
    // With `Never`, even a failing file formatter is not consulted:
    // the record still reaches the file sink.
    let sink = RecordingFileWriter::new(FailingFormat);
    let mut writer: PrimaryWriter<LevelMessageFormat, RecordingFileWriter<FailingFormat>> =
        PrimaryWriter::file(DuplicationPolicy::Never, sink, ConsoleSink::recorder());

    assert!(writer.write(&record(Severity::Error, "boom")).is_ok());
    assert!(writer.validate_logs(&vec![record(Severity::Error, "boom")]));
    assert!(console_lines(&writer).is_empty());
}

#[test]
fn flush_twice_changes_nothing_observable() {
    let sink = RecordingFileWriter::new(LevelMessageFormat);
    let mut writer: FileBacked = PrimaryWriter::file(
        DuplicationPolicy::OnErrorOnly,
        sink,
        ConsoleSink::recorder(),
    );
    writer.write(&record(Severity::Info, "one")).unwrap();
    writer.write(&record(Severity::Warn, "two")).unwrap();

    assert!(writer.flush().is_ok());
    let lines_after_first = console_lines(&writer);
    assert!(writer.validate_logs(&vec![
        record(Severity::Info, "one"),
        record(Severity::Warn, "two"),
    ]));

    assert!(writer.flush().is_ok());
    assert_eq!(console_lines(&writer), lines_after_first);
    assert!(writer.validate_logs(&vec![
        record(Severity::Info, "one"),
        record(Severity::Warn, "two"),
    ]));
}

#[test]
fn recording_sink_flush_is_idempotent() {
    let mut sink = RecordingFileWriter::new(LevelMessageFormat);
    sink.write(&record(Severity::Error, "a")).unwrap();
    sink.write(&record(Severity::Error, "b")).unwrap();
    assert_eq!(sink.durable_count(), 0);

    sink.flush().unwrap();
    assert_eq!(sink.durable_count(), 2);
    sink.flush().unwrap();
    assert_eq!(sink.durable_count(), 2);
    assert_eq!(sink.records().len(), 2);
}

#[test]
fn stderr_stream_accepts_a_line_and_flush() {
    let mut writer: ConsoleOnly =
        PrimaryWriter::stderr(LevelMessageFormat, ConsoleSink::stderr_stream());
    assert!(writer.write(&record(Severity::Info, "visible on stderr")).is_ok());
    assert!(writer.flush().is_ok());
    assert!(writer.console_sink().recorded_lines().is_none());
}

#[test]
fn non_duplicating_write_succeeds_on_failing_console() {
    // With `Never`, the console is not touched at all, so even a failing
    // console stream does not disturb the file write.
    let sink = RecordingFileWriter::new(LevelMessageFormat);
    let mut writer: FileBacked =
        PrimaryWriter::file(DuplicationPolicy::Never, sink, ConsoleSink::Failing);
    assert!(writer.write(&record(Severity::Error, "boom")).is_ok());
    assert!(writer.validate_logs(&vec![record(Severity::Error, "boom")]));
}

#[test]
fn flush_reports_console_failure_after_file_flush() {
    let sink = RecordingFileWriter::new(LevelMessageFormat);
    let mut writer: FileBacked =
        PrimaryWriter::file(DuplicationPolicy::Never, sink, ConsoleSink::Failing);
    writer.write(&record(Severity::Info, "x")).unwrap();
    assert!(writer.flush().is_err());
}

#[test]
fn formatter_renders_level_and_message() {
    let rendered = LevelMessageFormat
        .render(&record(Severity::Warn, "careful"))
        .unwrap();
    assert_eq!(rendered, "Warn: careful");
}

#[test]
fn failing_formatter_reports_an_error() {
    assert!(FailingFormat.render(&record(Severity::Info, "x")).is_err());
}

#[test]
fn records_compare_by_all_fields() {
    let a = record(Severity::Info, "same");
    let b = record(Severity::Info, "same");
    let c = record(Severity::Warn, "same");
    let d = record(Severity::Info, "other");
    assert!(records_equal(&a, &b));
    assert!(!records_equal(&a, &c));
    assert!(!records_equal(&a, &d));
    assert!(records_equal(&a, &a.duplicate()));
}

#[test]
fn validation_rejects_wrong_order_and_wrong_length() {
    let mut sink = RecordingFileWriter::new(LevelMessageFormat);
    sink.write(&record(Severity::Info, "one")).unwrap();
    sink.write(&record(Severity::Warn, "two")).unwrap();

    assert!(sink.validate(&vec![
        record(Severity::Info, "one"),
        record(Severity::Warn, "two"),
    ]));
    assert!(!sink.validate(&vec![
        record(Severity::Warn, "two"),
        record(Severity::Info, "one"),
    ]));
    assert!(!sink.validate(&vec![record(Severity::Info, "one")]));
}
