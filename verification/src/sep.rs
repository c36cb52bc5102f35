//! `Seperated`: renders a sequence of already-rendered items by writing each
//! item's text immediately followed by the separator's text. The separator
//! follows every item, including the last — the trailing separator is
//! deliberate and preserved exactly.

use vstd::prelude::*;
use vstd::string::StringExecFns;

verus! {

/// The character sequences of a sequence of strings, in order.
pub open spec fn views_of(items: Seq<String>) -> Seq<Seq<char>> {
    items.map_values(|s: String| s@)
}

/// The joined text: each item in order, each immediately followed by the
/// separator. Zero items give the empty sequence.
pub open spec fn joined(sep: Seq<char>, items: Seq<Seq<char>>) -> Seq<char>
    decreases items.len(),
{
    if items.len() == 0 {
        Seq::empty()
    } else {
        joined(sep, items.drop_last()) + items.last() + sep
    }
}

/// A separator together with the textual forms of the items to join. Each
/// render concatenates every item's text followed by the separator's text.
pub struct Seperated {
    sep: String,
    items: Vec<String>,
}

impl Seperated {
    /// The separator's characters.
    pub closed spec fn spec_sep(&self) -> Seq<char> {
        self.sep@
    }

    /// The items' character sequences, in order.
    pub closed spec fn spec_items(&self) -> Seq<Seq<char>> {
        views_of(self.items@)
    }

    /// Builds the join recipe from a separator and the items' textual forms.
    pub fn new(sep: String, items: Vec<String>) -> (r: Self)
        ensures
            r.spec_sep() == sep@,
            r.spec_items() == views_of(items@),
    {
        Seperated { sep, items }
    }

    /// Renders every item followed by the separator, in order, with the
    /// separator also after the last item.
    pub fn render(&self) -> (r: String)
        ensures
            r@ == joined(self.spec_sep(), self.spec_items()),
    {
        let mut out = String::new();
        let n = self.items.len();
        let mut i: usize = 0;
        while i < n
            invariant
                i <= n,
                n == self.items@.len(),
                out@ == joined(self.spec_sep(), self.spec_items().take(i as int)),
            decreases n - i,
        {
            out.append(self.items[i].as_str());
            out.append(self.sep.as_str());
            proof {
                let t = self.spec_items().take(i as int + 1);
                assert(t.drop_last() =~= self.spec_items().take(i as int));
                assert(t.last() == self.items@[i as int]@);
                assert(out@ =~= joined(self.spec_sep(), t));
            }
            i = i + 1;
        }
        proof {
            assert(self.spec_items().take(n as int) =~= self.spec_items());
        }
        out
    }
}

/// Joining zero items yields the empty text, whatever the separator.
pub proof fn lemma_joined_empty(sep: Seq<char>)
    ensures
        joined(sep, Seq::<Seq<char>>::empty()) == Seq::<char>::empty(),
{
}

} // verus!
