//! Laws that relate the operations of the containers and their iterators,
//! stated over the sequences that their contracts speak of.
use vstd::prelude::*;

use crate::drain::{after_drain, drained};

verus! {

/// Pushing `v` and then popping hands `v` back and leaves the elements as
/// they were (`push` appends, `pop` takes the last element off).
pub proof fn lemma_push_pop<T>(s: Seq<T>, v: T)
    ensures
        s.push(v).len() == s.len() + 1,
        s.push(v).last() == v,
        s.push(v).drop_last() == s,
{
    assert(s.push(v).drop_last() =~= s);
}

/// Inserting `v` at `i` and then removing at `i` hands `v` back and leaves
/// the elements as they were.
pub proof fn lemma_insert_remove<T>(s: Seq<T>, i: int, v: T)
    requires
        0 <= i <= s.len(),
    ensures
        s.insert(i, v)[i] == v,
        s.insert(i, v).remove(i) == s,
{
    assert(s.insert(i, v).remove(i) =~= s);
}

/// Draining `[a, b)` hands out exactly the elements at `[a, b)`, in order,
/// and leaves those before `a` followed by those from `b` on, in order; the
/// length drops by `b - a`.
pub proof fn lemma_drain_completeness<T>(s: Seq<T>, a: int, b: int)
    requires
        0 <= a <= b <= s.len(),
    ensures
        drained(s, a, b).len() == b - a,
        forall|i: int| 0 <= i < b - a ==> #[trigger] drained(s, a, b)[i] == s[a + i],
        after_drain(s, a, b).len() == s.len() - (b - a),
        forall|i: int| 0 <= i < a ==> #[trigger] after_drain(s, a, b)[i] == s[i],
        forall|i: int|
            a <= i < s.len() - (b - a) ==> #[trigger] after_drain(s, a, b)[i] == s[i + (b - a)],
        drained(s, a, b) + s.subrange(b, s.len() as int) == s.subrange(a, s.len() as int),
{
    assert(drained(s, a, b) + s.subrange(b, s.len() as int) =~= s.subrange(a, s.len() as int));
}

/// What an owning iterator over `s` hands out when pulled once per entry of
/// `dirs`, `true` from the front and `false` from the back: the front
/// elements in the order they came, and the back elements in the order they
/// came.
pub open spec fn pulled<T>(s: Seq<T>, dirs: Seq<bool>) -> (Seq<T>, Seq<T>)
    decreases dirs.len(),
{
    if dirs.len() == 0 || s.len() == 0 {
        (Seq::empty(), Seq::empty())
    } else if dirs[0] {
        let (f, b) = pulled(s.drop_first(), dirs.drop_first());
        (seq![s[0]] + f, b)
    } else {
        let (f, b) = pulled(s.drop_last(), dirs.drop_first());
        (f, seq![s.last()] + b)
    }
}

/// Pulling at least `s.len()` times from either end of an owning iterator
/// over `s` hands out every element exactly once: the front pulls give a
/// prefix of `s` in order, the back pulls the rest in reverse order.
pub proof fn lemma_exhaustion<T>(s: Seq<T>, dirs: Seq<bool>)
    requires
        dirs.len() >= s.len(),
    ensures
        pulled(s, dirs).0.len() + pulled(s, dirs).1.len() == s.len(),
        pulled(s, dirs).0 + pulled(s, dirs).1.reverse() == s,
    decreases dirs.len(),
{
    if dirs.len() == 0 || s.len() == 0 {
        assert(Seq::<T>::empty() + Seq::<T>::empty().reverse() =~= s);
    } else if dirs[0] {
        lemma_exhaustion(s.drop_first(), dirs.drop_first());
        let (f, b) = pulled(s.drop_first(), dirs.drop_first());
        assert(f + b.reverse() == s.drop_first());
        assert(seq![s[0]] + f + b.reverse() =~= seq![s[0]] + (f + b.reverse()));
        assert(seq![s[0]] + s.drop_first() =~= s);
    } else {
        lemma_exhaustion(s.drop_last(), dirs.drop_first());
        let (f, b) = pulled(s.drop_last(), dirs.drop_first());
        assert((seq![s.last()] + b).reverse() =~= b.reverse().push(s.last())) by {
            assert forall|i: int| 0 <= i < b.len() + 1 implies (seq![s.last()] + b).reverse()[i]
                == b.reverse().push(s.last())[i] by {}
        }
        assert(f + b.reverse() == s.drop_last());
        assert(f + b.reverse().push(s.last()) =~= (f + b.reverse()).push(s.last()));
        assert(s.drop_last().push(s.last()) =~= s);
    }
}

} // verus!
