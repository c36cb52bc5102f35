//! `CSrcStr`: renders a byte sequence as a C-style source string, escaping
//! bytes that are unsafe or non-printable in that context. Printable ASCII
//! bytes other than the double quote pass through as themselves; `"` becomes
//! `\"`; the newline byte becomes `\n`; every other byte becomes `\xHH` with
//! two lowercase hexadecimal digits. No quotes frame the whole output.

use vstd::prelude::*;

use crate::charseq::{chars_to_string, hex_digit, hex_digit_exec};

verus! {

/// The bytes that pass through as themselves: the ASCII letters, the digits,
/// the space, and every printable punctuation character except the double
/// quote — together, exactly the printable ASCII range 0x20..=0x7E minus `"`.
pub open spec fn c_plain(b: u8) -> bool {
    0x20 <= b && b <= 0x7e && b != 0x22
}

/// What one byte contributes to the escaped output: itself, `\"`, `\n`, or
/// `\xHH` with two lowercase hexadecimal digits.
pub open spec fn c_escape_byte(b: u8) -> Seq<char> {
    if c_plain(b) {
        seq![b as char]
    } else if b == 0x22 {
        seq!['\\', '"']
    } else if b == 0x0a {
        seq!['\\', 'n']
    } else {
        seq!['\\', 'x', hex_digit(b as int / 16), hex_digit(b as int % 16)]
    }
}

/// The full escaped rendering of a byte sequence: the contributions of its
/// bytes, in order.
pub open spec fn c_escaped(bs: Seq<u8>) -> Seq<char>
    decreases bs.len(),
{
    if bs.len() == 0 {
        Seq::empty()
    } else {
        c_escaped(bs.drop_last()) + c_escape_byte(bs.last())
    }
}

/// A view over a byte slice that renders it as a C-style escaped source
/// string. Comparable and orderable, so two equal byte sequences escape
/// identically and it can serve as a map or sort key.
#[derive(Debug, PartialEq, Eq, PartialOrd, Ord)]
pub struct CSrcStr<'a> {
    d: &'a [u8],
}

impl<'a> View for CSrcStr<'a> {
    type V = Seq<u8>;

    closed spec fn view(&self) -> Seq<u8> {
        self.d@
    }
}

impl<'a> CSrcStr<'a> {
    /// Wraps a byte slice for C-style escaped rendering.
    pub fn from(d: &'a [u8]) -> (r: Self)
        ensures
            r@ == d@,
    {
        CSrcStr { d }
    }

    /// The wrapped byte slice, unchanged.
    pub fn as_bytes(&self) -> (r: &'a [u8])
        ensures
            r@ == self@,
    {
        self.d
    }

    /// Renders the wrapped bytes as a C-style escaped string.
    pub fn render(&self) -> (r: String)
        ensures
            r@ == c_escaped(self@),
    {
        let n = self.d.len();
        let mut out: Vec<char> = Vec::new();
        let mut i: usize = 0;
        while i < n
            invariant
                i <= n,
                n == self.d@.len(),
                out@ == c_escaped(self.d@.take(i as int)),
            decreases n - i,
        {
            let b = self.d[i];
            if 0x20 <= b && b <= 0x7e && b != 0x22 {
                out.push(b as char);
            } else if b == 0x22 {
                out.push('\\');
                out.push('"');
            } else if b == 0x0a {
                out.push('\\');
                out.push('n');
            } else {
                out.push('\\');
                out.push('x');
                out.push(hex_digit_exec(b / 16));
                out.push(hex_digit_exec(b % 16));
            }
            proof {
                let t = self.d@.take(i as int + 1);
                assert(t.drop_last() =~= self.d@.take(i as int));
                assert(t.last() == self.d@[i as int]);
                assert(out@ =~= c_escaped(t));
            }
            i = i + 1;
        }
        proof {
            assert(self.d@.take(n as int) =~= self.d@);
        }
        chars_to_string(out)
    }
}

/// True of the printable ASCII characters, 0x20 through 0x7E inclusive.
pub open spec fn is_printable_ascii(c: char) -> bool {
    0x20 <= c as u32 && c as u32 <= 0x7e
}

/// Every character one byte contributes is printable ASCII.
proof fn lemma_c_escape_byte_printable(b: u8)
    ensures
        forall|i: int|
            0 <= i < c_escape_byte(b).len() ==> is_printable_ascii(#[trigger] c_escape_byte(b)[i]),
{
}

/// Every character of the escaped rendering is printable ASCII.
pub proof fn lemma_c_escaped_printable(bs: Seq<u8>)
    ensures
        forall|i: int|
            0 <= i < c_escaped(bs).len() ==> is_printable_ascii(#[trigger] c_escaped(bs)[i]),
    decreases bs.len(),
{
    if bs.len() == 0 {
    } else {
        let dl = bs.drop_last();
        let tail = c_escape_byte(bs.last());
        lemma_c_escaped_printable(dl);
        lemma_c_escape_byte_printable(bs.last());
        assert forall|i: int| 0 <= i < c_escaped(bs).len() implies is_printable_ascii(
            c_escaped(bs)[i],
        ) by {
            if i < c_escaped(dl).len() {
                assert(c_escaped(bs)[i] == c_escaped(dl)[i]);
            } else {
                assert(c_escaped(bs)[i] == tail[i - c_escaped(dl).len()]);
            }
        }
    }
}

/// The hexadecimal digit characters of two distinct values below sixteen
/// are distinct.
proof fn lemma_hex_digit_injective(n1: int, n2: int)
    requires
        0 <= n1 < 16,
        0 <= n2 < 16,
        hex_digit(n1) == hex_digit(n2),
    ensures
        n1 == n2,
{
    assert(hex_digit(n1) as u32 == hex_digit(n2) as u32);
}

/// The map from a byte to its emitted form is injective across the four
/// escape shapes, so the escaped output determines the byte unambiguously.
pub proof fn lemma_c_escape_byte_injective(b1: u8, b2: u8)
    requires
        c_escape_byte(b1) == c_escape_byte(b2),
    ensures
        b1 == b2,
{
    let e1 = c_escape_byte(b1);
    let e2 = c_escape_byte(b2);
    if c_plain(b1) && c_plain(b2) {
        assert(e1[0] == e2[0]);
        assert((b1 as char) as u32 == (b2 as char) as u32);
    } else if !c_plain(b1) && !c_plain(b2) && b1 != 0x22 && b1 != 0x0a && b2 != 0x22 && b2
        != 0x0a {
        assert(e1[2] == e2[2]);
        assert(e1[3] == e2[3]);
        lemma_hex_digit_injective(b1 as int / 16, b2 as int / 16);
        lemma_hex_digit_injective(b1 as int % 16, b2 as int % 16);
        assert(b1 as int == 16 * (b1 as int / 16) + b1 as int % 16);
        assert(b2 as int == 16 * (b2 as int / 16) + b2 as int % 16);
    } else {
        assert(e1.len() == e2.len());
        assert(e1[0] == e2[0]);
        assert(e1[1] == e2[1]);
    }
}

} // verus!
