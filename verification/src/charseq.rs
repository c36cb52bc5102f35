//! Shared character-level primitives: lowercase hexadecimal digits and
//! turning a buffer of characters into a `String`.

use vstd::prelude::*;

verus! {

/// The lowercase hexadecimal digit character for a value below sixteen:
/// `0`..`9` for 0..9, `a`..`f` for 10..15.
pub open spec fn hex_digit(n: int) -> char
    recommends
        0 <= n < 16,
{
    if n < 10 {
        ((48 + n) as u8) as char
    } else {
        ((87 + n) as u8) as char
    }
}

/// Rendering is repeatable: every rendering contract in this crate pins the
/// produced text to a spec function of the rendered value alone, so two
/// renderings of the same instance, with the underlying value unchanged,
/// yield identical text.
pub proof fn lemma_render_deterministic<A>(
    f: spec_fn(A) -> Seq<char>,
    x: A,
    r1: Seq<char>,
    r2: Seq<char>,
)
    requires
        r1 == f(x),
        r2 == f(x),
    ensures
        r1 == r2,
{
}

/// Computes the lowercase hexadecimal digit character for `n`.
pub(crate) fn hex_digit_exec(n: u8) -> (c: char)
    requires
        n < 16,
    ensures
        c == hex_digit(n as int),
{
    if n < 10 {
        (48 + n) as char
    } else {
        (87 + n) as char
    }
}

/// Relies on `String`'s `FromIterator<char>` impl: collecting characters
/// in order yields the string of exactly those characters.
#[verifier::external_body]
pub(crate) fn chars_to_string(v: Vec<char>) -> (r: String)
    ensures
        r@ == v@,
{
    v.into_iter().collect()
}

} // verus!
