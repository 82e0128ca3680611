//! Word wrapping for text that arrives piece by piece.
//!
//! Characters are gathered into words. A word is written when a space or a
//! line feed ends it, on a new line when it would not fit on the current
//! one. Widths are counted in bytes of UTF-8.

use crate::text::{chars_of, extend_chars, string_of};
use vstd::prelude::*;
use vstd::string::StringExecFns;

verus! {

/// The number of bytes that encode `c` in UTF-8.
pub open spec fn utf8_len(c: char) -> nat {
    if (c as u32) < 0x80 {
        1
    } else if (c as u32) < 0x800 {
        2
    } else if (c as u32) < 0x10000 {
        3
    } else {
        4
    }
}

/// `a + b`, but no more than `usize::MAX`.
pub open spec fn capped(a: nat, b: nat) -> nat {
    if a + b > usize::MAX {
        usize::MAX as nat
    } else {
        a + b
    }
}

/// The number of bytes that encode `word` in UTF-8, capped at `usize::MAX`.
pub open spec fn byte_len(word: Seq<char>) -> nat
    decreases word.len(),
{
    if word.len() == 0 {
        0
    } else {
        capped(byte_len(word.drop_last()), utf8_len(word.last()))
    }
}

/// The state of a word wrapper.
pub struct WrapState {
    /// The width of a line.
    pub max_width: nat,
    /// How much of the current line is written.
    pub col: nat,
    /// The characters of the word that is being gathered.
    pub word: Seq<char>,
}

/// Writes the gathered word: the state after, and the text written.
///
/// Nothing happens without a word. The word goes on a new line when the
/// current line is not empty and the word does not fit on it.
pub open spec fn flushed(s: WrapState) -> (WrapState, Seq<char>) {
    if s.word.len() == 0 {
        (s, Seq::empty())
    } else if s.col > 0 && s.col + byte_len(s.word) > s.max_width {
        (
            WrapState { col: capped(0, byte_len(s.word)), word: Seq::empty(), ..s },
            seq!['\n'] + s.word,
        )
    } else {
        (WrapState { col: capped(s.col, byte_len(s.word)), word: Seq::empty(), ..s }, s.word)
    }
}

/// Takes one character: the state after, and the text written.
///
/// A line feed ends the word and the line. A space ends the word, and is
/// written unless it would begin a line. Any other character joins the word.
pub open spec fn taken(s: WrapState, c: char) -> (WrapState, Seq<char>) {
    if c == '\n' {
        (WrapState { col: 0, ..flushed(s).0 }, flushed(s).1.push('\n'))
    } else if c == ' ' {
        if flushed(s).0.col > 0 {
            (WrapState { col: capped(flushed(s).0.col, 1), ..flushed(s).0 }, flushed(s).1.push(' '))
        } else {
            flushed(s)
        }
    } else {
        (WrapState { word: s.word.push(c), ..s }, Seq::empty())
    }
}

/// Takes the characters `text[..upto]`: the state after, and the text written.
pub open spec fn written(s: WrapState, text: Seq<char>, upto: int) -> (WrapState, Seq<char>)
    decreases upto,
{
    if upto <= 0 || upto > text.len() {
        (s, Seq::empty())
    } else {
        let before = written(s, text, upto - 1);
        let step = taken(before.0, text[upto - 1]);
        (step.0, before.1 + step.1)
    }
}

/// A word wrapper for streamed text.
pub struct WordWrapper {
    max_width: usize,
    col: usize,
    word_buf: Vec<char>,
    word_bytes: usize,
}

impl View for WordWrapper {
    type V = WrapState;

    closed spec fn view(&self) -> WrapState {
        WrapState { max_width: self.max_width as nat, col: self.col as nat, word: self.word_buf@ }
    }
}

impl WordWrapper {
    /// The byte count kept beside the word is the byte length of the word.
    pub closed spec fn well_formed(&self) -> bool {
        self.word_bytes == byte_len(self.word_buf@)
    }

    /// A wrapper for lines of `max_width` bytes, at the start of a line.
    pub fn new(max_width: usize) -> (w: WordWrapper)
        ensures
            w.well_formed(),
            w@ == (WrapState { max_width: max_width as nat, col: 0, word: Seq::empty() }),
    {
        WordWrapper { max_width, col: 0, word_buf: Vec::new(), word_bytes: 0 }
    }

    /// Writes the gathered word to `out`.
    fn flush_word(&mut self, out: &mut Vec<char>)
        requires
            old(self).well_formed(),
        ensures
            final(self).well_formed(),
            final(self)@ == flushed(old(self)@).0,
            final(out)@ == old(out)@ + flushed(old(self)@).1,
    {
        if self.word_buf.len() == 0 {
            assert(out@ =~= old(out)@ + Seq::<char>::empty());
            return ;
        }
        let n = self.word_bytes;
        if self.col > 0 && (n > self.max_width || self.col > self.max_width - n) {
            out.push('\n');
            self.col = 0;
        }
        extend_chars(out, self.word_buf.as_slice());
        self.col = if n > usize::MAX - self.col {
            usize::MAX
        } else {
            self.col + n
        };
        self.word_buf = Vec::new();
        self.word_bytes = 0;
        assert(out@ =~= old(out)@ + flushed(old(self)@).1);
    }

    /// Takes `text` and returns what is to be written now. A word that
    /// `text` does not end stays in the wrapper.
    pub fn write(&mut self, text: &str) -> (output: String)
        requires
            old(self).well_formed(),
        ensures
            final(self).well_formed(),
            final(self)@ == written(old(self)@, text@, text@.len() as int).0,
            output@ == written(old(self)@, text@, text@.len() as int).1,
    {
        let chars = chars_of(text);
        let mut out: Vec<char> = Vec::new();
        let mut i: usize = 0;
        while i < chars.len()
            invariant
                i <= chars.len(),
                chars@ == text@,
                self.well_formed(),
                self@ == written(old(self)@, text@, i as int).0,
                out@ == written(old(self)@, text@, i as int).1,
            decreases chars.len() - i,
        {
            let ch = chars[i];
            let ghost before = self@;
            let ghost sofar = out@;
            if ch == '\n' {
                self.flush_word(&mut out);
                out.push('\n');
                self.col = 0;
            } else if ch == ' ' {
                self.flush_word(&mut out);
                if self.col > 0 {
                    out.push(' ');
                    self.col = if self.col == usize::MAX {
                        usize::MAX
                    } else {
                        self.col + 1
                    };
                }
            } else {
                let width: usize = if (ch as u32) < 0x80 {
                    1
                } else if (ch as u32) < 0x800 {
                    2
                } else if (ch as u32) < 0x10000 {
                    3
                } else {
                    4
                };
                let ghost word = self.word_buf@;
                self.word_buf.push(ch);
                assert(self.word_buf@.drop_last() =~= word);
                self.word_bytes = if width > usize::MAX - self.word_bytes {
                    usize::MAX
                } else {
                    self.word_bytes + width
                };
            }
            assert(self@ == taken(before, ch).0);
            assert(out@ =~= sofar + taken(before, ch).1);
            i += 1;
        }
        string_of(out.as_slice())
    }

    /// Ends the text and returns what is to be written: the word that was
    /// being gathered, if any.
    pub fn flush(&mut self) -> (output: String)
        requires
            old(self).well_formed(),
        ensures
            final(self).well_formed(),
            final(self)@ == flushed(old(self)@).0,
            output@ == flushed(old(self)@).1,
    {
        let mut out: Vec<char> = Vec::new();
        self.flush_word(&mut out);
        assert(out@ =~= flushed(old(self)@).1);
        string_of(out.as_slice())
    }
}

/// What stands before the report in the request for an analysis.
pub const PROMPT_HEAD: &'static str =
    "You are analyzing a railsup doctor diagnostic report.\n\nRailsup is THE way to install and run Ruby on Rails. It manages Ruby versions\nin ~/.railsup/ruby/ and gems in ~/.railsup/gems/. Users may have other version\nmanagers (rbenv, asdf, rvm) installed that can conflict.\n\nKey things to check:\n- ruby_status.any_installed: false means no Ruby installed\n- ruby_status.default_set: false means no default configured\n- shell_integration.placement: \"NotFound\" or \"BeforeVersionManagers\" are problems\n- conflicts: look for tools with impact \"Blocking\"\n- path_analysis.ruby_correct: false means wrong ruby is being used\n\nDiagnostic Report:\n```json\n";

/// What stands after the report in the request for an analysis.
pub const PROMPT_TAIL: &'static str =
    "\n```\n\nProvide a brief, conversational analysis (2-4 sentences):\n1. Is the setup healthy or are there issues?\n2. If issues exist, what's the most important one to fix?\n3. One specific actionable recommendation\n\nBe direct and friendly. No markdown formatting. Plain text only.\nExample tone: \"Your setup looks good. rbenv is installed but railsup takes\nprecedence thanks to correct shell-init placement. No action needed.\"\n";

/// Writes the request for an analysis of a report, given the report as JSON.
pub fn build_prompt(json: &str) -> (prompt: String)
    ensures
        prompt@ == PROMPT_HEAD@ + json@ + PROMPT_TAIL@,
{
    let mut prompt = String::new();
    prompt.append(PROMPT_HEAD);
    prompt.append(json);
    prompt.append(PROMPT_TAIL);
    assert(prompt@ =~= PROMPT_HEAD@ + json@ + PROMPT_TAIL@);
    prompt
}

} // verus!
