//! `Hs`: a wrapper around a byte-sequence value that renders its contents as
//! a string of lowercase hexadecimal digit pairs, most-significant nibble
//! first, with no separators.

use vstd::prelude::*;

use crate::charseq::{chars_to_string, hex_digit, hex_digit_exec};

verus! {

/// The two lowercase hexadecimal digit characters of one byte,
/// most-significant nibble first.
pub open spec fn hex_pair(b: u8) -> Seq<char> {
    seq![hex_digit(b as int / 16), hex_digit(b as int % 16)]
}

/// The full hexadecimal rendering of a byte sequence: the digit pairs of the
/// bytes, in order, with no separators. Empty input gives the empty sequence.
pub open spec fn hex_encoded(bs: Seq<u8>) -> Seq<char>
    decreases bs.len(),
{
    if bs.len() == 0 {
        Seq::empty()
    } else {
        hex_encoded(bs.drop_last()) + hex_pair(bs.last())
    }
}

/// A wrapper around a byte vector that renders its contents as a hexadecimal
/// string. The wrapped value is a public field, so callers read and mutate it
/// directly; only the textual form is this type's own.
#[derive(Clone, PartialEq, Eq)]
pub struct Hs<T>(pub T);

impl Hs<Vec<u8>> {
    /// Renders the wrapped bytes as lowercase hexadecimal digit pairs.
    pub fn render(&self) -> (r: String)
        ensures
            r@ == hex_encoded(self.0@),
    {
        let n = self.0.len();
        let mut out: Vec<char> = Vec::new();
        let mut i: usize = 0;
        while i < n
            invariant
                i <= n,
                n == self.0@.len(),
                out@ == hex_encoded(self.0@.take(i as int)),
            decreases n - i,
        {
            let b = self.0[i];
            out.push(hex_digit_exec(b / 16));
            out.push(hex_digit_exec(b % 16));
            proof {
                let t = self.0@.take(i as int + 1);
                assert(t.drop_last() =~= self.0@.take(i as int));
                assert(t.last() == self.0@[i as int]);
            }
            i = i + 1;
        }
        proof {
            assert(self.0@.take(n as int) =~= self.0@);
        }
        chars_to_string(out)
    }
}

/// True of the sixteen lowercase hexadecimal digit characters.
pub open spec fn is_hex_digit_char(c: char) -> bool {
    ('0' <= c && c <= '9') || ('a' <= c && c <= 'f')
}

/// The rendering of a byte sequence is exactly twice as long as the input,
/// and every character of it is a lowercase hexadecimal digit.
pub proof fn lemma_hex_encoded_shape(bs: Seq<u8>)
    ensures
        hex_encoded(bs).len() == 2 * bs.len(),
        forall|i: int|
            0 <= i < hex_encoded(bs).len() ==> is_hex_digit_char(#[trigger] hex_encoded(bs)[i]),
    decreases bs.len(),
{
    if bs.len() == 0 {
    } else {
        lemma_hex_encoded_shape(bs.drop_last());
    }
}

} // verus!
