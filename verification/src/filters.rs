//! Facts about filtered sequences.
use vstd::prelude::*;

verus! {

/// Filters that agree on every element keep the same ones.
pub proof fn lemma_filter_agrees<A>(s: Seq<A>, p: spec_fn(A) -> bool, q: spec_fn(A) -> bool)
    requires
        forall|i: int| 0 <= i < s.len() ==> p(#[trigger] s[i]) == q(s[i]),
    ensures
        s.filter(p) == s.filter(q),
    decreases s.len(),
{
    reveal(Seq::filter);
    if s.len() > 0 {
        let rest = s.drop_last();
        assert forall|i: int| 0 <= i < rest.len() implies p(#[trigger] rest[i]) == q(rest[i]) by {
            assert(rest[i] == s[i]);
        }
        lemma_filter_agrees(rest, p, q);
        assert(p(s[s.len() - 1]) == q(s[s.len() - 1]));
    }
}

/// A filter that nothing fails keeps everything.
pub proof fn lemma_filter_keeps_all<A>(s: Seq<A>, p: spec_fn(A) -> bool)
    requires
        forall|i: int| 0 <= i < s.len() ==> p(#[trigger] s[i]),
    ensures
        s.filter(p) == s,
    decreases s.len(),
{
    reveal(Seq::filter);
    if s.len() > 0 {
        let rest = s.drop_last();
        assert forall|i: int| 0 <= i < rest.len() implies p(#[trigger] rest[i]) by {
            assert(rest[i] == s[i]);
        }
        lemma_filter_keeps_all(rest, p);
        assert(p(s[s.len() - 1]));
        assert(s.filter(p) =~= s);
    }
}

/// Two filters in a row keep what both keep.
pub proof fn lemma_filter_twice<A>(s: Seq<A>, p: spec_fn(A) -> bool, q: spec_fn(A) -> bool)
    ensures
        s.filter(p).filter(q) == s.filter(|a: A| p(a) && q(a)),
    decreases s.len(),
{
    broadcast use Seq::lemma_filter_push;

    let both = |a: A| p(a) && q(a);
    if s.len() > 0 {
        let rest = s.drop_last();
        lemma_filter_twice(rest, p, q);
        assert(s =~= rest.push(s.last()));
        assert(s.filter(p) == if p(s.last()) {
            rest.filter(p).push(s.last())
        } else {
            rest.filter(p)
        });
        assert(s.filter(both) == if both(s.last()) {
            rest.filter(both).push(s.last())
        } else {
            rest.filter(both)
        });
    } else {
        reveal(Seq::filter);
        assert(s.filter(p) =~= s);
        assert(s.filter(p).filter(q) =~= s.filter(both));
    }
}

} // verus!
