//! `AsciiStr`: a wrapper around a byte-sequence value that renders its
//! contents as a double-quoted string. The double-quote byte becomes `\"`,
//! printable ASCII bytes (0x20..=0x7E) pass through as themselves, and every
//! other byte becomes `\xHH` with two lowercase hexadecimal digits. This is
//! deliberately a narrower policy than the C-source escape: newline gets no
//! special case (it falls into `\x0a`) and the backslash passes through
//! unescaped.

use vstd::prelude::*;

use crate::charseq::{chars_to_string, hex_digit, hex_digit_exec};

verus! {

/// What one byte contributes between the quotes: `\"` for the double quote,
/// itself if printable ASCII, otherwise `\xHH`.
pub open spec fn aq_escape_byte(b: u8) -> Seq<char> {
    if b == 0x22 {
        seq!['\\', '"']
    } else if 0x20 <= b && b <= 0x7e {
        seq![b as char]
    } else {
        seq!['\\', 'x', hex_digit(b as int / 16), hex_digit(b as int % 16)]
    }
}

/// The quoted body of a byte sequence: the contributions of its bytes, in
/// order.
pub open spec fn aq_body(bs: Seq<u8>) -> Seq<char>
    decreases bs.len(),
{
    if bs.len() == 0 {
        Seq::empty()
    } else {
        aq_body(bs.drop_last()) + aq_escape_byte(bs.last())
    }
}

/// The full rendering: the body between one opening and one closing double
/// quote.
pub open spec fn ascii_quoted(bs: Seq<u8>) -> Seq<char> {
    seq!['"'] + aq_body(bs) + seq!['"']
}

/// A wrapper around a byte vector that renders its contents as a
/// double-quoted, ASCII-escaped string. The wrapped value is a public field,
/// so callers read and mutate it directly; only the textual form is this
/// type's own.
#[derive(Clone, PartialEq, Eq)]
pub struct AsciiStr<T>(pub T);

impl AsciiStr<Vec<u8>> {
    /// Renders the wrapped bytes as a double-quoted, ASCII-escaped string.
    pub fn render(&self) -> (r: String)
        ensures
            r@ == ascii_quoted(self.0@),
    {
        let n = self.0.len();
        let mut out: Vec<char> = Vec::new();
        out.push('"');
        let mut i: usize = 0;
        while i < n
            invariant
                i <= n,
                n == self.0@.len(),
                out@ == seq!['"'] + aq_body(self.0@.take(i as int)),
            decreases n - i,
        {
            let b = self.0[i];
            if b == 0x22 {
                out.push('\\');
                out.push('"');
            } else if 0x20 <= b && b <= 0x7e {
                out.push(b as char);
            } else {
                out.push('\\');
                out.push('x');
                out.push(hex_digit_exec(b / 16));
                out.push(hex_digit_exec(b % 16));
            }
            proof {
                let t = self.0@.take(i as int + 1);
                assert(t.drop_last() =~= self.0@.take(i as int));
                assert(t.last() == self.0@[i as int]);
                assert(out@ =~= seq!['"'] + aq_body(t));
            }
            i = i + 1;
        }
        out.push('"');
        proof {
            assert(self.0@.take(n as int) =~= self.0@);
            assert(out@ =~= ascii_quoted(self.0@));
        }
        chars_to_string(out)
    }
}

} // verus!
