use rcat::args::Source;
use rcat::stream::{source_name, stream_output, ReadOutcome, SourceRead};

fn complete(source: Source, content: &str) -> SourceRead {
    SourceRead {
        source,
        outcome: ReadOutcome::Complete(content.to_string()),
    }
}

fn interrupted(source: Source, read: &str, error: &str) -> SourceRead {
    SourceRead {
        source,
        outcome: ReadOutcome::Interrupted {
            read: read.to_string(),
            error: error.to_string(),
        },
    }
}

#[test]
fn stdin_passes_through_unmodified() {
    let reads = vec![complete(Source::Stdin, "hello\nworld\n")];
    assert_eq!(stream_output("cat", &reads), "hello\nworld\n");
}

#[test]
fn two_files_concatenate_in_order() {
    let reads = vec![
        complete(Source::FilePath("a.txt".to_string()), "first line\n"),
        complete(Source::FilePath("b.txt".to_string()), "second line\n"),
    ];
    assert_eq!(stream_output("cat", &reads), "first line\nsecond line\n");
}

#[test]
fn line_terminators_are_kept_as_stored() {
    let reads = vec![
        complete(Source::FilePath("a.txt".to_string()), "no newline at end"),
        complete(Source::FilePath("b.txt".to_string()), "\r\nwindows\r\n"),
    ];
    assert_eq!(stream_output("cat", &reads), "no newline at end\r\nwindows\r\n");
}

#[test]
fn failed_source_reports_and_the_next_still_appears() {
    let reads = vec![
        interrupted(
            Source::FilePath("missing.txt".to_string()),
            "",
            "No such file or directory (os error 2)",
        ),
        complete(Source::FilePath("real.txt".to_string()), "hello\n"),
    ];
    assert_eq!(
        stream_output("cat", &reads),
        "cat: missing.txt: No such file or directory (os error 2)\nhello\n"
    );
}

#[test]
fn failure_keeps_what_was_read_before_it() {
    let reads = vec![interrupted(
        Source::FilePath("partial.txt".to_string()),
        "start\n",
        "unexpected end of file",
    )];
    assert_eq!(
        stream_output("cat", &reads),
        "start\ncat: partial.txt: unexpected end of file\n"
    );
}

#[test]
fn no_sources_render_nothing() {
    let reads: Vec<SourceRead> = vec![];
    assert_eq!(stream_output("cat", &reads), "");
}

#[test]
fn same_outcomes_render_identical_output() {
    let reads = vec![
        complete(Source::FilePath("a.txt".to_string()), "fixed\n"),
        complete(Source::Stdin, "more\n"),
    ];
    assert_eq!(stream_output("cat", &reads), stream_output("cat", &reads));
}

#[test]
fn stdin_is_reported_as_dash() {
    assert_eq!(source_name(&Source::Stdin), "-");
    assert_eq!(
        source_name(&Source::FilePath("x.txt".to_string())),
        "x.txt"
    );
}
