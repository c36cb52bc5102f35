//! `SingleQuotedStr`: renders a string slice as a POSIX shell single-quoted
//! literal. Every literal single-quote character of the input becomes the
//! four-character sequence `'\''`; all other characters pass through
//! unescaped between the surrounding quotes.

use vstd::prelude::*;
use vstd::string::StrSliceExecFns;

use crate::charseq::chars_to_string;

verus! {

/// What one input character contributes to the quoted body: a single quote
/// becomes `'\''` (close, escaped quote, reopen); anything else is itself.
pub open spec fn sq_escape_char(c: char) -> Seq<char> {
    if c == '\'' {
        seq!['\'', '\\', '\'', '\'']
    } else {
        seq![c]
    }
}

/// The quoted body of a string: the contributions of its characters, in order.
pub open spec fn sq_body(s: Seq<char>) -> Seq<char>
    decreases s.len(),
{
    if s.len() == 0 {
        Seq::empty()
    } else {
        sq_body(s.drop_last()) + sq_escape_char(s.last())
    }
}

/// The full shell single-quoted rendering: the body between one opening and
/// one closing single quote.
pub open spec fn shell_quoted(s: Seq<char>) -> Seq<char> {
    seq!['\''] + sq_body(s) + seq!['\'']
}

/// A view over a string slice that renders it as a POSIX shell single-quoted
/// literal, safe to paste into a shell command line verbatim.
pub struct SingleQuotedStr<'a> {
    s: &'a str,
}

impl<'a> View for SingleQuotedStr<'a> {
    type V = Seq<char>;

    closed spec fn view(&self) -> Seq<char> {
        self.s@
    }
}

impl<'a> SingleQuotedStr<'a> {
    /// Wraps a string slice for shell single-quoted rendering.
    pub fn from(i: &'a str) -> (r: Self)
        ensures
            r@ == i@,
    {
        SingleQuotedStr { s: i }
    }

    /// The wrapped string slice, unchanged.
    pub fn as_str(&self) -> (r: &'a str)
        ensures
            r@ == self@,
    {
        self.s
    }

    /// Renders the wrapped string as a shell single-quoted literal.
    pub fn render(&self) -> (r: String)
        ensures
            r@ == shell_quoted(self@),
    {
        let n = self.s.unicode_len();
        let mut out: Vec<char> = Vec::new();
        out.push('\'');
        let mut i: usize = 0;
        while i < n
            invariant
                i <= n,
                n == self.s@.len(),
                out@ == seq!['\''] + sq_body(self.s@.take(i as int)),
            decreases n - i,
        {
            let c = self.s.get_char(i);
            if c == '\'' {
                out.push('\'');
                out.push('\\');
                out.push('\'');
                out.push('\'');
            } else {
                out.push(c);
            }
            proof {
                let t = self.s@.take(i as int + 1);
                assert(t.drop_last() =~= self.s@.take(i as int));
                assert(t.last() == self.s@[i as int]);
                assert(out@ =~= seq!['\''] + sq_body(t));
            }
            i = i + 1;
        }
        out.push('\'');
        proof {
            assert(self.s@.take(n as int) =~= self.s@);
            assert(out@ =~= shell_quoted(self@));
        }
        chars_to_string(out)
    }
}

/// The body of a string without single quotes is the string itself.
proof fn lemma_sq_body_no_quotes(s: Seq<char>)
    requires
        forall|i: int| 0 <= i < s.len() ==> s[i] != '\'',
    ensures
        sq_body(s) == s,
    decreases s.len(),
{
    if s.len() == 0 {
        assert(sq_body(s) =~= s);
    } else {
        lemma_sq_body_no_quotes(s.drop_last());
        assert(sq_body(s) =~= s);
    }
}

/// For a string with no single quote in it, the rendering is exactly the
/// input between one opening and one closing single quote.
pub proof fn lemma_shell_quoted_no_quotes(s: Seq<char>)
    requires
        forall|i: int| 0 <= i < s.len() ==> s[i] != '\'',
    ensures
        shell_quoted(s) == seq!['\''] + s + seq!['\''],
{
    lemma_sq_body_no_quotes(s);
}

} // verus!
