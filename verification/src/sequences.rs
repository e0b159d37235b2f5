//! Facts about `filter_map` on sequences that the proofs of this crate
//! share.

use vstd::prelude::*;

verus! {

/// Where every element has an image, `filter_map` keeps every element:
/// the first `n` elements give their `n` images, in order.
pub proof fn lemma_filter_map_total<A, B>(s: Seq<A>, f: spec_fn(A) -> Option<B>, n: int)
    requires
        0 <= n <= s.len(),
        forall|i: int| 0 <= i < s.len() ==> f(#[trigger] s[i]) is Some,
    ensures
        s.take(n).filter_map(f).len() == n,
        forall|i: int| 0 <= i < n ==> #[trigger] s.take(n).filter_map(f)[i] == f(s[i]).unwrap(),
    decreases n,
{
    if n > 0 {
        lemma_filter_map_total(s, f, n - 1);
        s.lemma_filter_map_take_succ(f, n - 1);
    }
}

/// The image of an element is among what `filter_map` gives.
pub proof fn lemma_filter_map_has<A, B>(s: Seq<A>, f: spec_fn(A) -> Option<B>, i: int)
    requires
        0 <= i < s.len(),
        f(s[i]) is Some,
    ensures
        s.filter_map(f).contains(f(s[i]).unwrap()),
    decreases s.len(),
{
    let image = f(s[i]).unwrap();
    let rest = s.drop_last().filter_map(f);
    if i == s.len() - 1 {
        let all = rest + seq![image];
        assert(all[rest.len() as int] == image);
    } else {
        lemma_filter_map_has(s.drop_last(), f, i);
        let k = choose|k: int| 0 <= k < rest.len() && rest[k] == image;
        match f(s.last()) {
            Some(b) => {
                assert((rest + seq![b])[k] == image);
            },
            None => {},
        }
    }
}

} // verus!
