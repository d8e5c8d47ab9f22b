use vstd::prelude::*;
use std::collections::VecDeque;

verus! {

/// A producer of elements, pulled one at a time from its front.
///
/// `rest` is the sequence of elements that the cursor has yet to yield.
pub trait Cursor: Sized {
    type Item;

    spec fn rest(&self) -> Seq<Self::Item>;

    /// Yields the first remaining element, or `None` once nothing remains.
    fn next(&mut self) -> (r: Option<Self::Item>)
        ensures
            old(self).rest().len() == 0 ==> r is None && final(self).rest() == old(self).rest(),
            old(self).rest().len() > 0 ==> r == Some(old(self).rest()[0])
                && final(self).rest() == old(self).rest().drop_first(),
    ;
}

/// A cursor that can also be drained from its back.
pub trait BackCursor: Cursor {
    /// Yields the last remaining element, or `None` once nothing remains.
    fn next_back(&mut self) -> (r: Option<Self::Item>)
        ensures
            old(self).rest().len() == 0 ==> r is None && final(self).rest() == old(self).rest(),
            old(self).rest().len() > 0 ==> r == Some(old(self).rest().last())
                && final(self).rest() == old(self).rest().drop_last(),
    ;
}

/// A cursor over the elements of a vector, drained from either end.
pub struct VecCursor<T> {
    items: VecDeque<T>,
}

impl<T> VecCursor<T> {
    pub closed spec fn items(&self) -> Seq<T> {
        self.items@
    }

    /// A cursor that yields the elements of `v` in order.
    pub fn new(v: Vec<T>) -> (r: Self)
        ensures
            r.rest() == v@,
    {
        let mut v = v;
        let mut items: VecDeque<T> = VecDeque::new();
        let ghost all = v@;
        while v.len() > 0
            invariant
                v@ + items@ == all,
            decreases v.len(),
        {
            let x = v.pop().unwrap();
            items.push_front(x);
            assert(v@ + items@ =~= all);
        }
        assert(items@ =~= all);
        VecCursor { items }
    }
}

impl<T> Cursor for VecCursor<T> {
    type Item = T;

    closed spec fn rest(&self) -> Seq<T> {
        self.items@
    }

    fn next(&mut self) -> (r: Option<T>) {
        let r = self.items.pop_front();
        if r.is_some() {
            assert(self.items@ =~= old(self).items@.drop_first());
        }
        r
    }
}

impl<T> BackCursor for VecCursor<T> {
    fn next_back(&mut self) -> (r: Option<T>) {
        let r = self.items.pop_back();
        if r.is_some() {
            assert(self.items@ =~= old(self).items@.drop_last());
        }
        r
    }
}

/// Drains `c` from its front and returns how many elements it yielded.
pub fn count<C: Cursor>(c: C) -> (n: usize)
    requires
        c.rest().len() <= usize::MAX,
    ensures
        n == c.rest().len(),
{
    let ghost all = c.rest();
    let mut cur = c;
    let mut n: usize = 0;
    loop
        invariant
            all == c.rest(),
            n + cur.rest().len() == all.len(),
            all.len() <= usize::MAX,
        decreases cur.rest().len(),
    {
        match cur.next() {
            Some(_) => n = n + 1,
            None => return n,
        }
    }
}

/// Drains `c` from its front into a vector, in the order yielded.
pub fn collect<C: Cursor>(c: C) -> (r: Vec<C::Item>)
    ensures
        r@ == c.rest(),
{
    let ghost all = c.rest();
    let mut cur = c;
    let mut r: Vec<C::Item> = Vec::new();
    loop
        invariant
            all == c.rest(),
            r@ + cur.rest() == all,
        decreases cur.rest().len(),
    {
        let ghost before = cur.rest();
        match cur.next() {
            Some(x) => {
                r.push(x);
                assert(r@ + cur.rest() =~= all) by {
                    assert(before =~= seq![x] + before.drop_first());
                }
            },
            None => {
                assert(r@ =~= all);
                return r;
            },
        }
    }
}

/// Drains `c` from its back into a vector: its elements in reverse order.
pub fn collect_rev<C: BackCursor>(c: C) -> (r: Vec<C::Item>)
    ensures
        r@ == c.rest().reverse(),
{
    let ghost all = c.rest();
    let mut cur = c;
    let mut r: Vec<C::Item> = Vec::new();
    loop
        invariant
            all == c.rest(),
            cur.rest().len() <= all.len(),
            r@ == all.subrange(cur.rest().len() as int, all.len() as int).reverse(),
            cur.rest() == all.subrange(0, cur.rest().len() as int),
        decreases cur.rest().len(),
    {
        match cur.next_back() {
            Some(x) => {
                r.push(x);
                assert(r@ =~= all.subrange(cur.rest().len() as int, all.len() as int).reverse());
                assert(cur.rest() =~= all.subrange(0, cur.rest().len() as int));
            },
            None => {
                assert(r@ =~= all.reverse());
                return r;
            },
        }
    }
}

} // verus!
