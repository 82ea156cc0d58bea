use vstd::prelude::*;

verus! {

/// Filtering a sequence extended by one element keeps the filtered
/// prefix and appends the new element exactly when it satisfies the
/// predicate.
pub proof fn lemma_filter_push<A>(s: Seq<A>, x: A, pred: spec_fn(A) -> bool)
    ensures
        pred(x) ==> s.push(x).filter(pred) == s.filter(pred).push(x),
        !pred(x) ==> s.push(x).filter(pred) == s.filter(pred),
{
    reveal(Seq::filter);
    assert(s.push(x).drop_last() =~= s);
    assert(s.push(x).last() == x);
}

/// Filtering keeps a duplicate-free sequence duplicate-free.
pub proof fn lemma_filter_no_duplicates<A>(s: Seq<A>, pred: spec_fn(A) -> bool)
    requires
        s.no_duplicates(),
    ensures
        s.filter(pred).no_duplicates(),
    decreases s.len(),
{
    reveal(Seq::filter);
    if s.len() > 0 {
        let prefix = s.drop_last();
        let last = s.last();
        assert(prefix.no_duplicates());
        lemma_filter_no_duplicates(prefix, pred);
        let f = prefix.filter(pred);
        if pred(last) {
            assert(!f.contains(last)) by {
                if f.contains(last) {
                    prefix.lemma_filter_contains_rev(pred, last);
                    let i = choose|i: int| 0 <= i < prefix.len() && prefix[i] == last;
                    assert(s[i] == s[s.len() - 1]);
                }
            }
            assert(s.filter(pred) == f.push(last));
            assert forall|i: int, j: int|
                0 <= i < f.push(last).len() && 0 <= j < f.push(last).len() && i != j implies f.push(
                last,
            )[i] != f.push(last)[j] by {
                if i < f.len() && j < f.len() {
                } else if j == f.len() {
                    assert(f.push(last)[i] == f[i]);
                } else {
                    assert(f.push(last)[j] == f[j]);
                }
            }
        } else {
            assert(s.filter(pred) == f);
        }
    }
}

} // verus!
