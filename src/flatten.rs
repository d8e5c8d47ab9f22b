use vstd::prelude::*;
use crate::cursor::{BackCursor, Cursor};

verus! {

/// What each cursor of `s` has yet to yield, in the order of `s`.
pub open spec fn contents<C: Cursor>(s: Seq<C>) -> Seq<Seq<C::Item>> {
    s.map_values(|c: C| c.rest())
}

/// What an optional cursor has yet to yield; nothing when it is absent.
pub open spec fn opt_rest<C: Cursor>(o: Option<C>) -> Seq<C::Item> {
    match o {
        Some(c) => c.rest(),
        None => Seq::empty(),
    }
}

/// The elements of every cursor of `s`, in the order of `s`.
pub open spec fn flat<C: Cursor>(s: Seq<C>) -> Seq<C::Item> {
    contents(s).flatten()
}

proof fn lemma_flat_split_first<C: Cursor>(s: Seq<C>)
    requires
        s.len() > 0,
    ensures
        flat(s) == s[0].rest() + flat(s.drop_first()),
{
    assert(contents(s).drop_first() =~= contents(s.drop_first()));
}

proof fn lemma_flat_split_last<C: Cursor>(s: Seq<C>)
    requires
        s.len() > 0,
    ensures
        flat(s) == flat(s.drop_last()) + s.last().rest(),
{
    assert(contents(s) =~= contents(s.drop_last()).push(s.last().rest()));
    contents(s.drop_last()).lemma_flatten_push(s.last().rest());
}

/// Yields the elements of the inner cursors that `outer` produces, in order.
///
/// Forward calls drain the front inner cursor, and take a new one from the
/// front of `outer` when it runs dry; backward calls do the same with the back
/// inner cursor and the back of `outer`. Once `outer` is empty, each direction
/// falls back on the other direction's inner cursor, so the two meet in the
/// middle without skipping or repeating an element.
pub struct Flatten<O: Cursor> where O::Item: Cursor {
    outer: O,
    front_iter: Option<O::Item>,
    back_iter: Option<O::Item>,
}

impl<O: Cursor> Flatten<O> where O::Item: Cursor {
    /// What the front inner cursor has yet to yield.
    pub closed spec fn front_rest(&self) -> Seq<<O::Item as Cursor>::Item> {
        opt_rest(self.front_iter)
    }

    /// The inner cursors that the outer cursor has yet to produce.
    pub closed spec fn outer_rest(&self) -> Seq<O::Item> {
        self.outer.rest()
    }

    /// What the back inner cursor has yet to yield.
    pub closed spec fn back_rest(&self) -> Seq<<O::Item as Cursor>::Item> {
        opt_rest(self.back_iter)
    }

    /// Going from `self` to `after`, the adapter took `k` inner cursors from
    /// the front of the outer cursor, and no more than forward production
    /// needed: none while the front inner cursor still held an element, and
    /// none past an inner cursor that held one.
    pub open spec fn pulled_front(self, after: Self) -> bool {
        exists|k: int|
            #![trigger self.outer_rest().skip(k)]
            {
                &&& 0 <= k <= self.outer_rest().len()
                &&& after.outer_rest() == self.outer_rest().skip(k)
                &&& k > 0 ==> self.front_rest().len() == 0
                &&& forall|j: int|
                    0 <= j < k - 1 ==> (#[trigger] self.outer_rest()[j]).rest().len() == 0
            }
    }

    /// The mirror image of `pulled_front`: `after` took `k` inner cursors
    /// from the back of the outer cursor, none while the back inner cursor
    /// still held an element, and none past an inner cursor that held one.
    pub open spec fn pulled_back(self, after: Self) -> bool {
        exists|k: int|
            #![trigger self.outer_rest().take(self.outer_rest().len() - k)]
            {
                &&& 0 <= k <= self.outer_rest().len()
                &&& after.outer_rest() == self.outer_rest().take(self.outer_rest().len() - k)
                &&& k > 0 ==> self.back_rest().len() == 0
                &&& forall|j: int|
                    self.outer_rest().len() - k + 1 <= j < self.outer_rest().len() ==> (
                    #[trigger] self.outer_rest()[j]).rest().len() == 0
            }
    }

    /// An adapter over `iter` with no inner cursor taken yet.
    pub fn new(iter: O) -> (r: Self)
        ensures
            r.outer_rest() == iter.rest(),
            r.front_rest() == Seq::<<O::Item as Cursor>::Item>::empty(),
            r.back_rest() == Seq::<<O::Item as Cursor>::Item>::empty(),
            r.rest() == flat(iter.rest()),
    {
        let r = Flatten { outer: iter, front_iter: None, back_iter: None };
        assert(r.rest() =~= flat(iter.rest()));
        r
    }
}

impl<O: Cursor> Cursor for Flatten<O> where O::Item: Cursor {
    type Item = <O::Item as Cursor>::Item;

    open spec fn rest(&self) -> Seq<Self::Item> {
        self.front_rest() + flat(self.outer_rest()) + self.back_rest()
    }

    fn next(&mut self) -> (r: Option<Self::Item>)
        ensures
            old(self).pulled_front(*final(self)),
    {
        let ghost mut k: int = 0;
        let ghost start = self.outer.rest();
        loop
            invariant
                self.rest() == old(self).rest(),
                start == old(self).outer_rest(),
                0 <= k <= start.len(),
                self.outer.rest() == start.skip(k),
                self.back_iter == old(self).back_iter,
                k == 0 ==> self.front_iter == old(self).front_iter,
                k > 0 ==> self.front_iter == Some(start[k - 1]),
                k > 0 ==> old(self).front_rest().len() == 0,
                forall|j: int| 0 <= j < k - 1 ==> (#[trigger] start[j]).rest().len() == 0,
            decreases self.outer.rest().len(),
        {
            if self.front_iter.is_some() {
                let mut front = self.front_iter.take().unwrap();
                let ghost m = flat(self.outer.rest()) + self.back_rest();
                let x = front.next();
                if x.is_some() {
                    self.front_iter = Some(front);
                    assert(old(self).rest() =~= seq![x.unwrap()] + self.rest());
                    assert(self.outer_rest() == start.skip(k));
                    return x;
                }
                assert(self.rest() =~= m);
            }
            let ghost pending = self.outer.rest();
            match self.outer.next() {
                Some(inner) => {
                    proof {
                        lemma_flat_split_first(pending);
                        assert(start.skip(k).drop_first() =~= start.skip(k + 1));
                        k = k + 1;
                    }
                    self.front_iter = Some(inner);
                    assert(self.rest() =~= old(self).rest());
                },
                None => {
                    assert(self.rest() =~= self.back_rest());
                    assert(self.outer_rest() == start.skip(k));
                    if self.back_iter.is_none() {
                        return None;
                    }
                    let mut back = self.back_iter.take().unwrap();
                    let x = back.next();
                    if x.is_some() {
                        self.back_iter = Some(back);
                    }
                    assert(self.rest() =~= back.rest());
                    return x;
                },
            }
        }
    }
}

impl<O: BackCursor> BackCursor for Flatten<O> where O::Item: BackCursor {
    fn next_back(&mut self) -> (r: Option<Self::Item>)
        ensures
            old(self).pulled_back(*final(self)),
    {
        let ghost mut k: int = 0;
        let ghost start = self.outer.rest();
        let ghost n = start.len();
        loop
            invariant
                self.rest() == old(self).rest(),
                start == old(self).outer_rest(),
                n == start.len(),
                0 <= k <= n,
                self.outer.rest() == start.take(n - k),
                self.front_iter == old(self).front_iter,
                k == 0 ==> self.back_iter == old(self).back_iter,
                k > 0 ==> self.back_iter == Some(start[n - k]),
                k > 0 ==> old(self).back_rest().len() == 0,
                forall|j: int| n - k + 1 <= j < n ==> (#[trigger] start[j]).rest().len() == 0,
            decreases self.outer.rest().len(),
        {
            if self.back_iter.is_some() {
                let mut back = self.back_iter.take().unwrap();
                let ghost m = self.front_rest() + flat(self.outer.rest());
                let x = back.next_back();
                if x.is_some() {
                    self.back_iter = Some(back);
                    assert(old(self).rest() =~= self.rest().push(x.unwrap()));
                    assert(self.outer_rest() == start.take(n - k));
                    return x;
                }
                assert(self.rest() =~= m);
            }
            let ghost pending = self.outer.rest();
            match self.outer.next_back() {
                Some(inner) => {
                    proof {
                        lemma_flat_split_last(pending);
                        assert(start.take(n - k).drop_last() =~= start.take(n - (k + 1)));
                        k = k + 1;
                    }
                    self.back_iter = Some(inner);
                    assert(self.rest() =~= old(self).rest());
                },
                None => {
                    assert(self.rest() =~= self.front_rest());
                    assert(self.outer_rest() == start.take(n - k));
                    if self.front_iter.is_none() {
                        return None;
                    }
                    let mut front = self.front_iter.take().unwrap();
                    let x = front.next_back();
                    if x.is_some() {
                        self.front_iter = Some(front);
                    }
                    assert(self.rest() =~= front.rest());
                    return x;
                },
            }
        }
    }
}

/// An adapter that yields every element of every inner cursor of `iter`, in
/// order. Nothing is pulled from `iter` until the first element is asked for.
pub fn flatten<O: Cursor>(iter: O) -> (r: Flatten<O>) where O::Item: Cursor
    ensures
        r.outer_rest() == iter.rest(),
        r.front_rest() == Seq::<<O::Item as Cursor>::Item>::empty(),
        r.back_rest() == Seq::<<O::Item as Cursor>::Item>::empty(),
        r.rest() == flat(iter.rest()),
{
    Flatten::new(iter)
}

/// The fluent form of [`flatten`].
pub trait IteratorExt: Cursor {
    fn our_flatten(self) -> (r: Flatten<Self>) where Self::Item: Cursor
        ensures
            r.outer_rest() == self.rest(),
            r.front_rest() == Seq::<<Self::Item as Cursor>::Item>::empty(),
            r.back_rest() == Seq::<<Self::Item as Cursor>::Item>::empty(),
            r.rest() == flat(self.rest()),
    ;
}

impl<T: Cursor> IteratorExt for T {
    fn our_flatten(self) -> (r: Flatten<Self>) where Self::Item: Cursor {
        flatten(self)
    }
}

} // verus!
