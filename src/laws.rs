use vstd::prelude::*;
use crate::cursor::Cursor;
use crate::flatten::{contents, flat};

verus! {

/// The sum of the lengths of the sequences of `s`.
pub open spec fn total_len<T>(s: Seq<Seq<T>>) -> nat
    decreases s.len(),
{
    if s.len() == 0 {
        0
    } else {
        s[0].len() + total_len(s.drop_first())
    }
}

/// Flattening yields as many elements as the inner cursors hold together.
pub proof fn lemma_flat_len<C: Cursor>(s: Seq<C>)
    ensures
        flat(s).len() == total_len(contents(s)),
    decreases s.len(),
{
    if s.len() > 0 {
        assert(contents(s).drop_first() =~= contents(s.drop_first()));
        lemma_flat_len(s.drop_first());
    }
}

/// An outer sequence that is empty, or whose inner cursors are all empty,
/// flattens to nothing.
pub proof fn lemma_flat_of_empty_inners<C: Cursor>(s: Seq<C>)
    requires
        forall|i: int| 0 <= i < s.len() ==> (#[trigger] s[i]).rest().len() == 0,
    ensures
        flat(s) == Seq::<C::Item>::empty(),
    decreases s.len(),
{
    if s.len() > 0 {
        assert(contents(s).drop_first() =~= contents(s.drop_first()));
        assert forall|i: int| 0 <= i < s.drop_first().len() implies (
        #[trigger] s.drop_first()[i]).rest().len() == 0 by {
            assert(s.drop_first()[i] == s[i + 1]);
        }
        lemma_flat_of_empty_inners(s.drop_first());
        assert(s[0].rest() =~= Seq::<C::Item>::empty());
        assert(flat(s) =~= Seq::<C::Item>::empty());
    }
}

/// Flattening keeps the outer order: the elements of the cursors of `s` all
/// come before those of the cursors of `t`.
pub proof fn lemma_flat_concat<C: Cursor>(s: Seq<C>, t: Seq<C>)
    ensures
        flat(s + t) == flat(s) + flat(t),
{
    assert(contents(s + t) =~= contents(s) + contents(t));
    vstd::seq_lib::lemma_flatten_concat(contents(s), contents(t));
}

/// The element at position `j` of an inner cursor comes out after every
/// element of the cursors before it, and before those after it.
pub proof fn lemma_flat_position<C: Cursor>(s: Seq<C>, i: int, j: int)
    requires
        0 <= i < s.len(),
        0 <= j < s[i].rest().len(),
    ensures
        flat(s)[total_len(contents(s.take(i))) + j] == s[i].rest()[j],
{
    assert(s =~= s.take(i) + (seq![s[i]] + s.skip(i + 1)));
    lemma_flat_concat(s.take(i), seq![s[i]] + s.skip(i + 1));
    lemma_flat_concat(seq![s[i]], s.skip(i + 1));
    lemma_flat_len(s.take(i));
    assert(contents(seq![s[i]]) =~= seq![s[i].rest()]);
    contents(seq![s[i]]).lemma_flatten_singleton();
}

/// Flattening twice flattens two levels: each outer cursor's inner cursors are
/// flattened in turn, and those results joined in the outer order.
pub proof fn lemma_flat_flat<C: Cursor>(s: Seq<C>)
    where
        C::Item: Cursor,
    ensures
        flat(flat(s)) == s.map_values(|c: C| flat(c.rest())).flatten(),
    decreases s.len(),
{
    if s.len() > 0 {
        assert(contents(s).drop_first() =~= contents(s.drop_first()));
        lemma_flat_concat(s[0].rest(), flat(s.drop_first()));
        lemma_flat_flat(s.drop_first());
        assert(s.map_values(|c: C| flat(c.rest())).drop_first() =~= s.drop_first().map_values(
            |c: C| flat(c.rest()),
        ));
    } else {
        assert(flat(s) =~= Seq::<C::Item>::empty());
        assert(flat(flat(s)) =~= Seq::<<C::Item as Cursor>::Item>::empty());
    }
}

} // verus!
