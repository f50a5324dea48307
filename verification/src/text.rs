//! The fixed texts the tool emits: usage, version, and error lines.

use vstd::prelude::*;
use vstd::string::*;

verus! {

/// The failure report for one source: `<program>: <name>: <error>`,
/// terminated by a newline.
pub open spec fn diagnostic_line_spec(program: Seq<char>, name: Seq<char>, err: Seq<char>) -> Seq<char> {
    program + ": "@ + name + ": "@ + err + "\n"@
}

/// Builds the per-source failure report that is emitted in place of the
/// remainder of a source that could not be read.
pub fn diagnostic_line(program: &str, name: &str, err: &str) -> (r: String)
    ensures
        r@ == diagnostic_line_spec(program@, name@, err@),
{
    let mut r = program.to_owned();
    r.append(": ");
    r.append(name);
    r.append(": ");
    r.append(err);
    r.append("\n");
    proof {
        assert(r@ =~= diagnostic_line_spec(program@, name@, err@));
    }
    r
}

/// The report for an argument-parse failure: `<program>: <message>`,
/// terminated by a newline.
pub open spec fn parse_error_line_spec(program: Seq<char>, msg: Seq<char>) -> Seq<char> {
    program + ": "@ + msg + "\n"@
}

/// Builds the report for a failure of option parsing itself; such a
/// failure stops the run before any source is touched.
pub fn parse_error_line(program: &str, msg: &str) -> (r: String)
    ensures
        r@ == parse_error_line_spec(program@, msg@),
{
    let mut r = program.to_owned();
    r.append(": ");
    r.append(msg);
    r.append("\n");
    proof {
        assert(r@ =~= parse_error_line_spec(program@, msg@));
    }
    r
}

/// The usage summary: one line naming the program, then one line for
/// each of the two recognized options.
pub open spec fn usage_text_spec(program: Seq<char>) -> Seq<char> {
    "usage: "@ + program
        + " [option] [file ...]\n      --help\t\tdisplay this help and exit\n      --version\t\toutput version information and exit\n"@
}

/// Builds the usage text printed for `--help`.
pub fn usage_text(program: &str) -> (r: String)
    ensures
        r@ == usage_text_spec(program@),
{
    let mut r = "usage: ".to_owned();
    r.append(program);
    r.append(
        " [option] [file ...]\n      --help\t\tdisplay this help and exit\n      --version\t\toutput version information and exit\n",
    );
    proof {
        assert(r@ =~= usage_text_spec(program@));
    }
    r
}

/// The embedded version string, fixed at build time; nothing is read
/// from disk for it.
pub open spec fn version_string_spec() -> Seq<char> {
    "0.1.0\n"@
}

/// The embedded copyright block, fixed at build time.
pub open spec fn copyright_text_spec() -> Seq<char> {
    "Copyright (c) the rcat authors. MIT license.\n"@
}

/// The version banner: the program's name, a literal ` v`, the embedded
/// version string, then the embedded copyright block. Both blocks are
/// compiled into the binary, so the banner is a function of the
/// program's name alone and is identical across runs.
pub open spec fn version_text_spec(program: Seq<char>) -> Seq<char> {
    program + " v"@ + version_string_spec() + copyright_text_spec()
}

/// Builds the version banner printed for `--version`.
pub fn version_text(program: &str) -> (r: String)
    ensures
        r@ == version_text_spec(program@),
{
    let mut r = program.to_owned();
    r.append(" v");
    r.append("0.1.0\n");
    r.append("Copyright (c) the rcat authors. MIT license.\n");
    proof {
        assert(r@ =~= version_text_spec(program@));
    }
    r
}

/// The version banner begins with `<program> v`, and what follows the
/// prefix starts with the embedded version string, which is not empty.
/// Being a function of the program's name and the embedded texts alone,
/// the banner is the same on every run.
pub proof fn lemma_version_banner_shape(program: Seq<char>)
    ensures
        version_text_spec(program).len() > program.len() + 2,
        version_text_spec(program).subrange(0, program.len() as int + 2) == program + " v"@,
        version_string_spec().len() > 0,
        version_text_spec(program).subrange(
            program.len() as int + 2,
            program.len() as int + 2 + version_string_spec().len() as int,
        ) == version_string_spec(),
{
    reveal_strlit(" v");
    reveal_strlit("0.1.0\n");
    reveal_strlit("Copyright (c) the rcat authors. MIT license.\n");
    assert(version_text_spec(program).subrange(0, program.len() as int + 2) =~= program + " v"@);
    assert(version_text_spec(program).subrange(
        program.len() as int + 2,
        program.len() as int + 2 + version_string_spec().len() as int,
    ) =~= version_string_spec());
}

} // verus!
