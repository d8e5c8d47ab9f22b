use vstd::prelude::*;
use crate::cursor::{BackCursor, Cursor};

verus! {

/// The integers `lo, lo + 1, ..., hi - 1`; nothing when `hi <= lo`.
pub open spec fn span_seq(lo: int, hi: int) -> Seq<u64> {
    Seq::new(if lo < hi { (hi - lo) as nat } else { 0 }, |i: int| (lo + i) as u64)
}

/// A half-open range of integers `lo..hi`, drained from either end.
pub struct Span {
    lo: u64,
    hi: u64,
}

impl Span {
    /// The range `lo..hi`; empty when `hi <= lo`.
    pub fn new(lo: u64, hi: u64) -> (r: Span)
        ensures
            r.rest() == span_seq(lo as int, hi as int),
    {
        let r = if lo <= hi {
            Span { lo, hi }
        } else {
            Span { lo, hi: lo }
        };
        assert(r.rest() =~= span_seq(lo as int, hi as int));
        r
    }
}

impl Cursor for Span {
    type Item = u64;

    closed spec fn rest(&self) -> Seq<u64> {
        span_seq(self.lo as int, self.hi as int)
    }

    fn next(&mut self) -> (r: Option<u64>) {
        if self.lo < self.hi {
            let x = self.lo;
            self.lo = self.lo + 1;
            assert(self.rest() =~= old(self).rest().drop_first());
            Some(x)
        } else {
            None
        }
    }
}

impl BackCursor for Span {
    fn next_back(&mut self) -> (r: Option<u64>) {
        if self.lo < self.hi {
            self.hi = self.hi - 1;
            assert(self.rest() =~= old(self).rest().drop_last());
            Some(self.hi)
        } else {
            None
        }
    }
}

/// The ranges `0..k`, `0..k + 1`, ..., `0..end - 1`; nothing when `end <= k`.
pub open spec fn prefix_seq(k: int, end: int) -> Seq<Seq<u64>> {
    Seq::new(if k < end { (end - k) as nat } else { 0 }, |i: int| span_seq(0, k + i))
}

/// Yields the ranges `0..k` for `k = from, from + 1, ...` up to `end`, which
/// it leaves out. With `end == u64::MAX` no caller reaches its end.
pub struct Prefixes {
    k: u64,
    end: u64,
}

impl Prefixes {
    /// The ranges `0..from` up to, and without, `0..end`.
    pub fn new(from: u64, end: u64) -> (r: Prefixes)
        ensures
            r.rest().map_values(|s: Span| s.rest()) == prefix_seq(from as int, end as int),
    {
        let r = if from <= end {
            Prefixes { k: from, end }
        } else {
            Prefixes { k: from, end: from }
        };
        assert(r.rest().map_values(|s: Span| s.rest()) =~= prefix_seq(from as int, end as int));
        r
    }
}

impl Cursor for Prefixes {
    type Item = Span;

    closed spec fn rest(&self) -> Seq<Span> {
        Seq::new(
            if self.k < self.end { (self.end - self.k) as nat } else { 0 },
            |i: int| Span { lo: 0, hi: (self.k + i) as u64 },
        )
    }

    fn next(&mut self) -> (r: Option<Span>) {
        if self.k < self.end {
            let s = Span { lo: 0, hi: self.k };
            self.k = self.k + 1;
            assert(self.rest() =~= old(self).rest().drop_first());
            Some(s)
        } else {
            None
        }
    }
}

impl BackCursor for Prefixes {
    fn next_back(&mut self) -> (r: Option<Span>) {
        if self.k < self.end {
            self.end = self.end - 1;
            assert(self.rest() =~= old(self).rest().drop_last());
            Some(Span { lo: 0, hi: self.end })
        } else {
            None
        }
    }
}

} // verus!
