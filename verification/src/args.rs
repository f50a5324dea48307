//! Interpreting the command line: two valueless long options, `--help`
//! and `--version`, and positional source tokens, where the literal `-`
//! names standard input and every other token names a file.

use vstd::prelude::*;
use vstd::string::*;

verus! {

/// One unit of input to stream: standard input, or a named file.
#[derive(PartialEq, Eq, Debug, Clone)]
pub enum Source {
    Stdin,
    FilePath(String),
}

/// The fully parsed form of one run: the two flags, and the ordered list
/// of sources to stream when neither flag is set.
#[derive(Debug)]
pub struct Invocation {
    pub help: bool,
    pub version: bool,
    pub sources: Vec<Source>,
}

/// The action one run takes: print the usage text, print the version
/// banner, or stream the sources.
#[derive(PartialEq, Eq, Structural, Debug)]
pub enum Action {
    ShowHelp,
    ShowVersion,
    Stream,
}

/// `src` stands for the token `tok`: the literal `-` names standard
/// input, and every other token names a file.
pub open spec fn is_source_for(src: Source, tok: Seq<char>) -> bool {
    match src {
        Source::Stdin => tok == "-"@,
        Source::FilePath(p) => p@ == tok && tok != "-"@,
    }
}

/// The relation between the flags and free tokens handed to the
/// interpreter and the invocation it builds: the flags are copied; with
/// neither flag set and no tokens, the one source is standard input;
/// otherwise the sources mirror the tokens, in order.
pub open spec fn invocation_matches(
    inv: Invocation,
    help: bool,
    version: bool,
    free: Seq<Seq<char>>,
) -> bool {
    &&& inv.help == help
    &&& inv.version == version
    &&& if !help && !version && free.len() == 0 {
        inv.sources@.len() == 1 && inv.sources@[0] is Stdin
    } else {
        inv.sources@.len() == free.len() && (forall|i: int|
            0 <= i < free.len() ==> is_source_for(#[trigger] inv.sources@[i], free[i]))
    }
}

/// What the interpreter guarantees of every invocation it returns: no
/// file source carries the `-` token, and when neither flag is set there
/// is at least one source to stream.
pub open spec fn invocation_wf(inv: Invocation) -> bool {
    &&& forall|i: int|
        0 <= i < inv.sources@.len() ==> (#[trigger] inv.sources@[i] matches Source::FilePath(p)
            ==> p@ != "-"@)
    &&& !inv.help && !inv.version ==> inv.sources@.len() >= 1
}

proof fn lemma_matches_implies_wf(inv: Invocation, help: bool, version: bool, free: Seq<Seq<char>>)
    requires
        invocation_matches(inv, help, version, free),
    ensures
        invocation_wf(inv),
{
    if !help && !version && free.len() == 0 {
    } else {
        assert forall|i: int|
            0 <= i < inv.sources@.len() implies (#[trigger] inv.sources@[i] matches
            Source::FilePath(p) ==> p@ != "-"@) by {
            assert(is_source_for(inv.sources@[i], free[i]));
        }
    }
}

/// Turns the flags and free tokens of one parsed command line into the
/// invocation they describe.
pub fn build_invocation(help: bool, version: bool, free: Vec<String>) -> (inv: Invocation)
    ensures
        invocation_matches(inv, help, version, free@.map_values(|t: String| t@)),
{
    let ghost toks = free@.map_values(|t: String| t@);
    let dash = String::from_str("-");
    proof {
        reveal_strlit("-");
    }
    let mut sources: Vec<Source> = Vec::new();
    let mut idx: usize = 0;
    while idx < free.len()
        invariant
            idx <= free.len(),
            toks == free@.map_values(|t: String| t@),
            dash@ == "-"@,
            sources@.len() == idx,
            forall|i: int| 0 <= i < idx ==> is_source_for(#[trigger] sources@[i], toks[i]),
        decreases free.len() - idx,
    {
        proof {
            assert(toks[idx as int] == free@[idx as int]@);
        }
        if free[idx] == dash {
            sources.push(Source::Stdin);
        } else {
            let p = free[idx].clone();
            sources.push(Source::FilePath(p));
        }
        idx = idx + 1;
    }
    if !help && !version && sources.len() == 0 {
        sources.push(Source::Stdin);
    }
    Invocation { help, version, sources }
}

/// Which action an invocation calls for: `--help` wins over `--version`,
/// and only when neither flag is set are any sources touched.
pub open spec fn action_for(inv: Invocation) -> Action {
    if inv.help {
        Action::ShowHelp
    } else if inv.version {
        Action::ShowVersion
    } else {
        Action::Stream
    }
}

/// Chooses the action an invocation calls for.
pub fn dispatch(inv: &Invocation) -> (a: Action)
    ensures
        a == action_for(*inv),
{
    if inv.help {
        Action::ShowHelp
    } else if inv.version {
        Action::ShowVersion
    } else {
        Action::Stream
    }
}

/// When `--help` was given, the chosen action is the usage text alone,
/// whatever else the command line carried — the version flag or any
/// number of source tokens. No source is ever read for such a run.
pub proof fn lemma_help_short_circuits(
    inv: Invocation,
    version: bool,
    free: Seq<Seq<char>>,
)
    requires
        invocation_matches(inv, true, version, free),
    ensures
        action_for(inv) == Action::ShowHelp,
{
}

/// A single `-` token and an empty token list build the same source
/// list: one entry, standard input. The two runs stream the same source.
pub proof fn lemma_dash_equals_default(inv_dash: Invocation, inv_empty: Invocation)
    requires
        invocation_matches(inv_dash, false, false, seq!["-"@]),
        invocation_matches(inv_empty, false, false, seq![]),
    ensures
        inv_dash.sources@ =~= inv_empty.sources@,
{
    assert(is_source_for(inv_dash.sources@[0], seq!["-"@][0]));
    assert(inv_dash.sources@[0] is Stdin) by {
        if inv_dash.sources@[0] matches Source::FilePath(p) {
            assert(seq!["-"@][0] == "-"@);
        }
    }
    assert(inv_dash.sources@[0] == Source::Stdin);
    assert(inv_empty.sources@[0] == Source::Stdin);
}

/// Whether getopts accepts the token list when exactly the two
/// valueless long options `--help` and `--version` are defined.
pub uninterp spec fn getopts_accepts(args: Seq<Seq<char>>) -> bool;

/// Whether `--help` occurred in an accepted token list.
pub uninterp spec fn getopts_help(args: Seq<Seq<char>>) -> bool;

/// Whether `--version` occurred in an accepted token list.
pub uninterp spec fn getopts_version(args: Seq<Seq<char>>) -> bool;

/// The free (positional) tokens of an accepted token list, in order.
pub uninterp spec fn getopts_free(args: Seq<Seq<char>>) -> Seq<Seq<char>>;

/// The description of the failure getopts reports for a rejected
/// token list.
pub uninterp spec fn getopts_error(args: Seq<Seq<char>>) -> Seq<char>;

/// Relies on getopts (`Options::new`, `Options::optflag`,
/// `Options::parse`, `Matches::opt_present`, and the `Display` impl of
/// `getopts::Fail`): parses the token list against exactly two
/// valueless long options, `--help` and `--version`, and hands back
/// whether each occurred together with the free (positional) tokens in
/// order, or else the description of the parse failure. The option set
/// being fixed here, the outcome is a function of the token list alone;
/// its components are named by `getopts_accepts`, `getopts_help`,
/// `getopts_version`, `getopts_free` and `getopts_error`.
#[verifier::external_body]
fn getopts_parse(args: &Vec<String>) -> (r: Result<(bool, bool, Vec<String>), String>)
    ensures
        r is Ok <==> getopts_accepts(args@.map_values(|t: String| t@)),
        r matches Ok(t) ==> t.0 == getopts_help(args@.map_values(|t: String| t@)),
        r matches Ok(t) ==> t.1 == getopts_version(args@.map_values(|t: String| t@)),
        r matches Ok(t) ==> t.2@.map_values(|t: String| t@) == getopts_free(
            args@.map_values(|t: String| t@),
        ),
        r matches Err(m) ==> m@ == getopts_error(args@.map_values(|t: String| t@)),
{
    let mut opts = getopts::Options::new();
    opts.optflag("", "help", "output this help and exit");
    opts.optflag("", "version", "output version information and exit");
    match opts.parse(args) {
        Ok(m) => Ok((m.opt_present("help"), m.opt_present("version"), m.free)),
        Err(f) => Err(f.to_string()),
    }
}

/// Interprets the raw argument tokens of one run (the program's own
/// name excluded): on the token lists getopts accepts, the invocation
/// whose flags and sources mirror the parsed flags and free tokens; on
/// every other token list, the parse failure's description.
pub fn parse_invocation(args: &Vec<String>) -> (r: Result<Invocation, String>)
    ensures
        r is Ok <==> getopts_accepts(args@.map_values(|t: String| t@)),
        r matches Ok(inv) ==> invocation_matches(
            inv,
            getopts_help(args@.map_values(|t: String| t@)),
            getopts_version(args@.map_values(|t: String| t@)),
            getopts_free(args@.map_values(|t: String| t@)),
        ),
        r matches Ok(inv) ==> invocation_wf(inv),
        r matches Err(m) ==> m@ == getopts_error(args@.map_values(|t: String| t@)),
{
    match getopts_parse(args) {
        Ok((help, version, free)) => {
            let ghost toks = free@.map_values(|t: String| t@);
            let inv = build_invocation(help, version, free);
            proof {
                lemma_matches_implies_wf(inv, help, version, toks);
            }
            Ok(inv)
        },
        Err(m) => Err(m),
    }
}

} // verus!
