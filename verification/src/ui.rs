//! The lines of text that the tool shows, and where each goes.

use vstd::prelude::*;
use vstd::string::StringExecFns;

verus! {

/// Where a line is written.
#[derive(Debug, Clone, Copy, PartialEq, Eq, Structural)]
pub enum Stream {
    /// Standard output.
    Stdout,
    /// Standard error, so that a shell that evaluates the output does not see the line.
    Stderr,
}

/// A line of text for the user.
#[derive(Debug)]
pub struct Line {
    pub stream: Stream,
    pub text: String,
}

impl View for Line {
    type V = (Stream, Seq<char>);

    open spec fn view(&self) -> (Stream, Seq<char>) {
        (self.stream, self.text@)
    }
}

/// The views of a sequence of lines.
pub open spec fn lines_view(lines: Seq<Line>) -> Seq<(Stream, Seq<char>)> {
    lines.map_values(|l: Line| l@)
}

/// `prefix` followed by `msg`, on `stream`.
fn line_of(stream: Stream, prefix: &str, msg: &str) -> (line: Line)
    ensures
        line@ == (stream, prefix@ + msg@),
{
    let mut text = String::new();
    text.append(prefix);
    text.append(msg);
    assert(text@ =~= prefix@ + msg@);
    Line { stream, text }
}

/// A success message: `  ✓ {msg}` on standard output.
pub fn success(msg: &str) -> (line: Line)
    ensures
        line@ == (Stream::Stdout, "  ✓ "@ + msg@),
{
    line_of(Stream::Stdout, "  ✓ ", msg)
}

/// An error message: `  ✗ {msg}` on standard error.
pub fn error(msg: &str) -> (line: Line)
    ensures
        line@ == (Stream::Stderr, "  ✗ "@ + msg@),
{
    line_of(Stream::Stderr, "  ✗ ", msg)
}

/// A warning: `  ⚠ {msg}` on standard error.
pub fn warn(msg: &str) -> (line: Line)
    ensures
        line@ == (Stream::Stderr, "  ⚠ "@ + msg@),
{
    line_of(Stream::Stderr, "  ⚠ ", msg)
}

/// A secondary message: `  {msg}` on standard output.
pub fn dim(msg: &str) -> (line: Line)
    ensures
        line@ == (Stream::Stdout, "  "@ + msg@),
{
    line_of(Stream::Stdout, "  ", msg)
}

/// A plain message on standard output.
pub fn info(msg: &str) -> (line: Line)
    ensures
        line@ == (Stream::Stdout, msg@),
{
    let line = line_of(Stream::Stdout, "", msg);
    proof {
        reveal_strlit("");
        assert(""@ + msg@ =~= msg@);
    }
    line
}

} // verus!
