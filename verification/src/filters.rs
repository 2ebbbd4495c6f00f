//! What holds of a sequence of rows after a filter was applied to it.

use vstd::prelude::*;

verus! {

/// A filter applied after a row was added at the end keeps that row at the
/// end if the row passes, and keeps what it kept before either way.
pub proof fn lemma_filter_push<T>(s: Seq<T>, x: T, pred: spec_fn(T) -> bool)
    ensures
        s.push(x).filter(pred) == if pred(x) {
            s.filter(pred).push(x)
        } else {
            s.filter(pred)
        },
{
    reveal(Seq::filter);
    assert(s.push(x).drop_last() =~= s);
}

/// A filter that no row passes keeps nothing.
pub proof fn lemma_filter_none<T>(rows: Seq<T>, pred: spec_fn(T) -> bool)
    requires
        forall|i: int| 0 <= i < rows.len() ==> !pred(#[trigger] rows[i]),
    ensures
        rows.filter(pred) == Seq::<T>::empty(),
    decreases rows.len(),
{
    reveal(Seq::filter);
    if rows.len() > 0 {
        lemma_filter_none(rows.drop_last(), pred);
        assert(!pred(rows[rows.len() - 1]));
    } else {
        assert(rows.filter(pred) =~= Seq::<T>::empty());
    }
}

/// Every row that a filter keeps is a row of the sequence it was applied
/// to.
pub proof fn lemma_filter_from<T>(rows: Seq<T>, pred: spec_fn(T) -> bool, at: int)
    requires
        0 <= at < rows.filter(pred).len(),
    ensures
        rows.contains(rows.filter(pred)[at]),
    decreases rows.len(),
{
    reveal(Seq::filter);
    if rows.len() > 0 {
        let head = rows.drop_last();
        if at < head.filter(pred).len() {
            lemma_filter_from(head, pred, at);
            let k = choose|k: int| 0 <= k < head.len() && head[k] == head.filter(pred)[at];
            assert(rows[k] == rows.filter(pred)[at]);
        } else {
            assert(rows[rows.len() - 1] == rows.filter(pred)[at]);
        }
    }
}

/// A narrower filter keeps no more rows than a wider one, also after a
/// second filter was applied to both.
pub proof fn lemma_narrower_filter<T>(
    rows: Seq<T>,
    narrow: spec_fn(T) -> bool,
    wide: spec_fn(T) -> bool,
    second: spec_fn(T) -> bool,
)
    requires
        forall|x: T| #[trigger] narrow(x) ==> wide(x),
    ensures
        rows.filter(narrow).len() <= rows.filter(wide).len(),
        rows.filter(narrow).filter(second).len() <= rows.filter(wide).filter(second).len(),
    decreases rows.len(),
{
    reveal(Seq::filter);
    if rows.len() > 0 {
        let head = rows.drop_last();
        let last = rows.last();
        lemma_narrower_filter(head, narrow, wide, second);
        assert(rows =~= head.push(last));
        lemma_filter_push(head, last, narrow);
        lemma_filter_push(head, last, wide);
        lemma_filter_push(head.filter(narrow), last, second);
        lemma_filter_push(head.filter(wide), last, second);
    }
}

} // verus!
