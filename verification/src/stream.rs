//! What the streaming phase of a run writes: each source's contribution
//! in the order the sources were given, where a source that read
//! completely contributes its content, and a source whose reading failed
//! contributes what was read before the failure followed by one
//! diagnostic line in place of the rest. A failure never crosses a
//! source boundary: the sources after it are streamed as if it had
//! succeeded.

use vstd::prelude::*;
use vstd::string::*;

use crate::args::Source;
use crate::text::diagnostic_line;
use crate::text::diagnostic_line_spec;

verus! {

/// How far one source's reading went: the whole content, or the part
/// read before a failure together with that failure's description.
pub enum ReadOutcome {
    Complete(String),
    Interrupted { read: String, error: String },
}

/// One source paired with what reading it yielded.
pub struct SourceRead {
    pub source: Source,
    pub outcome: ReadOutcome,
}

/// The name a source is reported under in a diagnostic line.
pub open spec fn source_name_spec(src: Source) -> Seq<char> {
    match src {
        Source::Stdin => "-"@,
        Source::FilePath(p) => p@,
    }
}

/// What one source contributes to the output stream.
pub open spec fn source_output_spec(program: Seq<char>, sr: SourceRead) -> Seq<char> {
    match sr.outcome {
        ReadOutcome::Complete(content) => content@,
        ReadOutcome::Interrupted { read, error } => read@ + diagnostic_line_spec(
            program,
            source_name_spec(sr.source),
            error@,
        ),
    }
}

/// The whole output of the streaming phase: the concatenation of each
/// source's contribution, in the order the sources were given.
pub open spec fn stream_output_spec(program: Seq<char>, reads: Seq<SourceRead>) -> Seq<char>
    decreases reads.len(),
{
    if reads.len() == 0 {
        Seq::<char>::empty()
    } else {
        source_output_spec(program, reads[0]) + stream_output_spec(program, reads.drop_first())
    }
}

proof fn lemma_stream_output_singleton(program: Seq<char>, sr: SourceRead)
    ensures
        stream_output_spec(program, seq![sr]) == source_output_spec(program, sr),
{
    let s = seq![sr];
    assert(s[0] == sr);
    assert(s.drop_first() =~= Seq::<SourceRead>::empty());
    assert(stream_output_spec(program, Seq::<SourceRead>::empty()) == Seq::<char>::empty());
    assert(source_output_spec(program, sr) + Seq::<char>::empty() =~= source_output_spec(
        program,
        sr,
    ));
}

proof fn lemma_stream_output_push(program: Seq<char>, prefix: Seq<SourceRead>, sr: SourceRead)
    ensures
        stream_output_spec(program, prefix.push(sr)) == stream_output_spec(program, prefix)
            + source_output_spec(program, sr),
    decreases prefix.len(),
{
    if prefix.len() == 0 {
        assert(prefix.push(sr) =~= seq![sr]);
        lemma_stream_output_singleton(program, sr);
        assert(stream_output_spec(program, prefix) == Seq::<char>::empty());
        assert(Seq::<char>::empty() + source_output_spec(program, sr) =~= source_output_spec(
            program,
            sr,
        ));
    } else {
        lemma_stream_output_push(program, prefix.drop_first(), sr);
        assert(prefix.push(sr).drop_first() =~= prefix.drop_first().push(sr));
        assert(prefix.push(sr)[0] == prefix[0]);
        assert(stream_output_spec(program, prefix.push(sr)) =~= stream_output_spec(
            program,
            prefix,
        ) + source_output_spec(program, sr));
    }
}

/// The name a source is reported under in a diagnostic line.
pub fn source_name(src: &Source) -> (r: &str)
    ensures
        r@ == source_name_spec(*src),
{
    match src {
        Source::Stdin => "-",
        Source::FilePath(p) => p.as_str(),
    }
}

/// Renders what one source contributes to the output stream.
pub fn source_output(program: &str, sr: &SourceRead) -> (out: String)
    ensures
        out@ == source_output_spec(program@, *sr),
{
    match &sr.outcome {
        ReadOutcome::Complete(content) => content.clone(),
        ReadOutcome::Interrupted { read, error } => {
            let mut out = read.clone();
            let name = source_name(&sr.source);
            let line = diagnostic_line(program, name, error.as_str());
            out.append(line.as_str());
            out
        },
    }
}

/// Renders the whole streaming phase for the given per-source outcomes.
pub fn stream_output(program: &str, reads: &Vec<SourceRead>) -> (out: String)
    ensures
        out@ == stream_output_spec(program@, reads@),
{
    let mut out = String::new();
    let mut idx: usize = 0;
    while idx < reads.len()
        invariant
            idx <= reads@.len(),
            out@ == stream_output_spec(program@, reads@.subrange(0, idx as int)),
        decreases reads@.len() - idx,
    {
        let piece = source_output(program, &reads[idx]);
        out.append(piece.as_str());
        proof {
            lemma_stream_output_push(
                program@,
                reads@.subrange(0, idx as int),
                reads@[idx as int],
            );
            assert(reads@.subrange(0, idx as int + 1) =~= reads@.subrange(0, idx as int).push(
                reads@[idx as int],
            ));
        }
        idx = idx + 1;
    }
    proof {
        assert(reads@.subrange(0, reads@.len() as int) =~= reads@);
    }
    out
}

/// With standard input as the only source, read to exhaustion, the
/// output is exactly what was read: the text passes through unmodified.
pub proof fn lemma_stdin_passthrough(program: Seq<char>, sr: SourceRead, content: String)
    requires
        sr.source is Stdin,
        sr.outcome == ReadOutcome::Complete(content),
    ensures
        stream_output_spec(program, seq![sr]) == content@,
{
    lemma_stream_output_singleton(program, sr);
}

/// Two sources that both read completely contribute exactly the first
/// content followed by the second, with every character kept as stored.
pub proof fn lemma_two_sources_concatenated(
    program: Seq<char>,
    first: SourceRead,
    second: SourceRead,
    c1: String,
    c2: String,
)
    requires
        first.outcome == ReadOutcome::Complete(c1),
        second.outcome == ReadOutcome::Complete(c2),
    ensures
        stream_output_spec(program, seq![first, second]) == c1@ + c2@,
{
    let reads = seq![first, second];
    assert(reads.drop_first() =~= seq![second]);
    lemma_stream_output_singleton(program, second);
    assert(stream_output_spec(program, reads) =~= c1@ + c2@);
}

/// A failing source does not disturb its successors: it contributes what
/// it read before the failure and one diagnostic line naming it, and the
/// next source's full content still follows, whatever the error
/// description was.
pub proof fn lemma_failure_isolated(
    program: Seq<char>,
    bad: SourceRead,
    rest: SourceRead,
    read: String,
    error: String,
    c2: String,
)
    requires
        bad.outcome == (ReadOutcome::Interrupted { read, error }),
        rest.outcome == ReadOutcome::Complete(c2),
    ensures
        stream_output_spec(program, seq![bad, rest]) == read@ + diagnostic_line_spec(
            program,
            source_name_spec(bad.source),
            error@,
        ) + c2@,
{
    let reads = seq![bad, rest];
    assert(reads.drop_first() =~= seq![rest]);
    lemma_stream_output_singleton(program, rest);
    assert(stream_output_spec(program, reads) =~= read@ + diagnostic_line_spec(
        program,
        source_name_spec(bad.source),
        error@,
    ) + c2@);
}

/// The streamed output is a function of the per-source outcomes alone:
/// two runs over sources whose contents did not change between them
/// render byte-identical output.
pub proof fn lemma_output_deterministic(
    program: Seq<char>,
    reads: Seq<SourceRead>,
    first: Seq<char>,
    second: Seq<char>,
)
    requires
        first == stream_output_spec(program, reads),
        second == stream_output_spec(program, reads),
    ensures
        first == second,
{
}

} // verus!
