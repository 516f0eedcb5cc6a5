use vstd::prelude::*;

verus! {

/// Keeping the elements that map to `Some` and unwrapping them is filtering
/// by a predicate and then mapping, when the partial function is built from
/// that predicate and that map.
pub proof fn lemma_filter_map_as_filter<A, B>(
    s: Seq<A>,
    f: spec_fn(A) -> Option<B>,
    p: spec_fn(A) -> bool,
    g: spec_fn(A) -> B,
)
    requires
        forall|x: A| #[trigger] f(x) == if p(x) { Some(g(x)) } else { None::<B> },
    ensures
        s.filter_map(f) == s.filter(p).map_values(g),
    decreases s.len(),
{
    reveal(Seq::filter);
    if s.len() == 0 {
        assert(s.filter(p).map_values(g) =~= Seq::<B>::empty());
    } else {
        let rest = s.drop_last();
        lemma_filter_map_as_filter(rest, f, p, g);
        let last = s.last();
        assert(f(last) == if p(last) { Some(g(last)) } else { None::<B> });
        if p(last) {
            assert(s.filter(p) == rest.filter(p).push(last));
            assert(s.filter(p).map_values(g) =~= rest.filter(p).map_values(g).push(g(last)));
            assert(s.filter_map(f) =~= rest.filter_map(f) + seq![g(last)]);
        } else {
            assert(s.filter(p) == rest.filter(p));
        }
    }
}

/// Mapping and then filtering keeps as many elements as filtering by the
/// composed predicate.
pub proof fn lemma_map_then_filter_len<A, B>(
    s: Seq<A>,
    h: spec_fn(A) -> B,
    q: spec_fn(B) -> bool,
    p: spec_fn(A) -> bool,
)
    requires
        forall|x: A| #[trigger] p(x) == q(h(x)),
    ensures
        s.map_values(h).filter(q).len() == s.filter(p).len(),
    decreases s.len(),
{
    reveal(Seq::filter);
    if s.len() > 0 {
        let rest = s.drop_last();
        lemma_map_then_filter_len(rest, h, q, p);
        assert(s.map_values(h).drop_last() =~= rest.map_values(h));
        assert(p(s.last()) == q(h(s.last())));
    } else {
        assert(s.map_values(h).len() == 0);
    }
}

} // verus!
