//! Ranges of offsets, and why widening a selection step by step must stop.
use vstd::prelude::*;

verus! {

/// `outer` holds `inner` and is larger than it.
pub open spec fn strictly_contains(outer: (int, int), inner: (int, int)) -> bool {
    outer.0 <= inner.0 && inner.1 <= outer.1 && outer != inner
}

/// The number of offsets that a range `[start, end)` spans.
pub open spec fn width(r: (int, int)) -> int {
    r.1 - r.0
}

/// A sequence of ranges of a text of length `n`, each step of which strictly
/// contains the range before it: what repeated selection expansion yields.
pub open spec fn expansion_chain(n: int, c: Seq<(int, int)>) -> bool {
    &&& forall|i: int| 0 <= i < c.len() ==> 0 <= (#[trigger] c[i]).0 <= c[i].1 <= n
    &&& forall|i: int| 0 <= i < c.len() - 1 ==> strictly_contains(c[i + 1], #[trigger] c[i])
}

proof fn lemma_width_grows(n: int, c: Seq<(int, int)>, i: int)
    requires
        expansion_chain(n, c),
        0 <= i < c.len(),
    ensures
        width(c[i]) >= width(c[0]) + i,
    decreases i,
{
    if i > 0 {
        lemma_width_grows(n, c, i - 1);
        assert(strictly_contains(c[i], c[i - 1]));
    }
}

/// Expansion never cycles: along a chain of strictly growing ranges of a
/// text of length `n` no range comes back, so the chain holds at most
/// `n + 1` ranges and must end, at the latest at the whole text.
pub proof fn lemma_expansion_terminates(n: int, c: Seq<(int, int)>)
    requires
        0 <= n,
        expansion_chain(n, c),
    ensures
        c.len() <= n + 1,
        forall|i: int, j: int| 0 <= i < j < c.len() ==> #[trigger] c[i] != #[trigger] c[j],
{
    if c.len() > 0 {
        lemma_width_grows(n, c, c.len() - 1);
        assert(0 <= c[0].0 <= c[0].1 <= n);
        assert(0 <= c[c.len() - 1].0 <= c[c.len() - 1].1 <= n);
    }
    assert forall|i: int, j: int| 0 <= i < j < c.len() implies #[trigger] c[i] != #[trigger] c[j] by {
        lemma_width_grows(n, c, i);
        lemma_width_grows(n, c, j);
        lemma_width_grows_from(n, c, i, j);
    }
}

proof fn lemma_width_grows_from(n: int, c: Seq<(int, int)>, i: int, j: int)
    requires
        expansion_chain(n, c),
        0 <= i <= j < c.len(),
    ensures
        width(c[j]) >= width(c[i]) + (j - i),
    decreases j - i,
{
    if i < j {
        lemma_width_grows_from(n, c, i, j - 1);
        assert(strictly_contains(c[j], c[j - 1]));
    }
}

} // verus!
