//! Display width: the number of terminal cells a piece of text occupies.

use unicode_width::UnicodeWidthStr;
use vstd::prelude::*;

verus! {

/// The number of terminal cells that `text` occupies, wide and zero-width
/// characters counted as a terminal shows them.
pub uninterp spec fn display_width(text: Seq<char>) -> nat;

/// Measures `text` with `unicode_width::UnicodeWidthStr::width`. That function
/// looks at nothing but the characters of its argument, so its result is the
/// display width of the text.
#[verifier::external_body]
fn measure(text: &str) -> (w: usize)
    ensures
        w as nat == display_width(text@),
{
    UnicodeWidthStr::width(text)
}

/// The display width of `text`, in terminal cells.
pub fn width_of(text: &str) -> (w: usize)
    ensures
        w as nat == display_width(text@),
{
    measure(text)
}

/// The display width of each line.
pub open spec fn widths(lines: Seq<Seq<char>>) -> Seq<nat> {
    Seq::new(lines.len(), |i: int| display_width(lines[i]))
}

/// The largest of `ws`, and 0 where there is none.
pub open spec fn largest(ws: Seq<nat>) -> nat
    decreases ws.len(),
{
    if ws.len() == 0 {
        0
    } else if largest(ws.drop_last()) >= ws.last() {
        largest(ws.drop_last())
    } else {
        ws.last()
    }
}

/// `largest(ws)` is an upper bound of `ws` and, unless `ws` is empty, one of
/// its members.
pub proof fn lemma_largest(ws: Seq<nat>)
    ensures
        forall|i: int| 0 <= i < ws.len() ==> ws[i] <= largest(ws),
        ws.len() > 0 ==> exists|i: int| 0 <= i < ws.len() && ws[i] == largest(ws),
        ws.len() == 0 ==> largest(ws) == 0,
    decreases ws.len(),
{
    if ws.len() > 0 {
        let init = ws.drop_last();
        lemma_largest(init);
        assert forall|i: int| 0 <= i < ws.len() implies ws[i] <= largest(ws) by {
            if i < init.len() {
                assert(init[i] == ws[i]);
            }
        }
        if largest(init) >= ws.last() && init.len() > 0 {
            let k = choose|i: int| 0 <= i < init.len() && init[i] == largest(init);
            assert(ws[k] == largest(ws));
        } else {
            assert(ws[ws.len() - 1] == largest(ws));
        }
    }
}

} // verus!
