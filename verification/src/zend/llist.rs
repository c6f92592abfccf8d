//! The runtime's intrusive singly linked list, viewed through its cursor
//! calls.
//!
//! The backing list exposes traversal only through a "get first" and a "get
//! next" accessor pair, not through stable node pointers, because the
//! runtime may keep an internal cursor of its own.  The view here follows
//! the same discipline: forward-only, one element per step, finished when
//! the next call reports none.

use vstd::prelude::*;

verus! {

/// A list object of the runtime holding elements of one payload type, in
/// traversal order.
#[derive(Debug)]
pub struct ZendLlist<T> {
    pub elements: Vec<T>,
    pub persistent: u8,
}

/// One position reached during a traversal, resolved against its list.
#[derive(Debug)]
pub struct ZLlistElement<'a, T> {
    pub list: &'a ZendLlist<T>,
    pub idx: usize,
}

impl<'a, T> Clone for ZLlistElement<'a, T> {
    fn clone(&self) -> (c: Self)
        ensures
            c == *self,
    {
        ZLlistElement { list: self.list, idx: self.idx }
    }
}

impl<'a, T> Copy for ZLlistElement<'a, T> {

}

impl<'a, T> ZLlistElement<'a, T> {
    /// The list this position belongs to.
    pub open spec fn list_spec(self) -> ZendLlist<T> {
        *self.list
    }

    /// The position's index in traversal order.
    pub open spec fn idx_spec(self) -> int {
        self.idx as int
    }

    /// The position points at an element of its list.
    pub open spec fn wf(self) -> bool {
        self.idx < self.list.elements@.len()
    }

    /// Resolves the following position: the "get next" call.  It yields
    /// one position exactly while one exists.
    pub fn next(&self) -> (n: Option<ZLlistElement<'a, T>>)
        requires
            self.wf(),
        ensures
            self.idx_spec() + 1 < self.list_spec().elements@.len() ==> (n matches Some(e)
                && e.list_spec() == self.list_spec() && e.idx_spec() == self.idx_spec() + 1
                && e.wf()),
            self.idx_spec() + 1 >= self.list_spec().elements@.len() ==> n is None,
    {
        let n = self.list.elements.len();
        if self.idx + 1 < n {
            Some(ZLlistElement { list: self.list, idx: self.idx + 1 })
        } else {
            None
        }
    }

    /// The payload stored at this position.
    pub fn data(&self) -> (d: &'a T)
        requires
            self.wf(),
        ensures
            *d == self.list_spec().elements@[self.idx_spec()],
    {
        &self.list.elements[self.idx]
    }
}

/// A borrowed traversal view over one list object.
#[derive(Debug)]
pub struct ZLlist<'a, T> {
    pub raw: &'a ZendLlist<T>,
}

impl<'a, T> ZLlist<'a, T> {
    /// Views a list object.
    pub fn over(raw: &'a ZendLlist<T>) -> (l: ZLlist<'a, T>)
        ensures
            l.raw == raw,
    {
        ZLlist { raw }
    }

    /// The number of elements the list holds.
    pub fn len(&self) -> (n: usize)
        ensures
            n == self.raw.elements@.len(),
    {
        self.raw.elements.len()
    }

    /// True when the list holds no element at all.
    pub fn is_empty(&self) -> (e: bool)
        ensures
            e <==> self.raw.elements@.len() == 0,
    {
        self.raw.elements.len() == 0
    }

    /// Resolves the first position: the "get first" call.  An empty list
    /// has none; otherwise the traversal starts at position zero.
    pub fn head(&self) -> (h: Option<ZLlistElement<'a, T>>)
        ensures
            self.raw.elements@.len() == 0 ==> h is None,
            self.raw.elements@.len() > 0 ==> (h matches Some(e) && e.list_spec() == *self.raw
                && e.idx_spec() == 0 && e.wf()),
    {
        if self.raw.elements.len() == 0 {
            None
        } else {
            Some(ZLlistElement { list: self.raw, idx: 0 })
        }
    }

    /// A fresh forward-only iterator over the list, positioned at the
    /// head.
    pub fn iter(&self) -> (it: ZLlistIter<'a, T>)
        ensures
            it.inner.raw == self.raw,
            it.wf(),
            it.remaining() == self.raw.elements@.len(),
    {
        ZLlistIter { cursor: self.head(), inner: ZLlist { raw: self.raw } }
    }

    /// Walking the whole list — one "get first" call, then "get next"
    /// until none remains — meets exactly one element per position: a list
    /// of `n` elements yields `n` visits, and an empty list yields none.
    pub fn traverse_count(&self) -> (n: usize)
        ensures
            n == self.raw.elements@.len(),
    {
        let total = self.raw.elements.len();
        let mut n: usize = 0;
        let mut cursor = self.head();
        loop
            invariant
                total == self.raw.elements@.len(),
                n <= total,
                match cursor {
                    Some(e) => e.list_spec() == *self.raw && e.wf() && e.idx_spec() == n
                        && n < self.raw.elements@.len(),
                    None => n == self.raw.elements@.len(),
                },
            decreases self.raw.elements@.len() - n,
        {
            match cursor {
                Some(e) => {
                    n = n + 1;
                    cursor = e.next();
                },
                None => {
                    return n;
                },
            }
        }
    }
}

/// A forward-only iterator over one list view, driven by the cursor calls.
#[derive(Debug)]
pub struct ZLlistIter<'a, T> {
    pub inner: ZLlist<'a, T>,
    pub cursor: Option<ZLlistElement<'a, T>>,
}

impl<'a, T> ZLlistIter<'a, T> {
    /// The cursor, when present, points into the iterated list.
    pub open spec fn wf(self) -> bool {
        match self.cursor {
            Some(e) => e.list_spec() == *self.inner.raw && e.wf(),
            None => true,
        }
    }

    /// How many elements are still to be yielded.
    pub open spec fn remaining(self) -> int {
        match self.cursor {
            Some(e) => self.inner.raw.elements@.len() - e.idx_spec(),
            None => 0,
        }
    }

    /// Yields the position under the cursor and advances, or reports the
    /// end of the traversal.
    pub fn next(&mut self) -> (e: Option<ZLlistElement<'a, T>>)
        requires
            old(self).wf(),
        ensures
            final(self).inner.raw == old(self).inner.raw,
            final(self).wf(),
            old(self).remaining() == 0 ==> e is None && final(self).remaining() == 0,
            old(self).remaining() > 0 ==> {
                &&& e matches Some(el) && el.list_spec() == *old(self).inner.raw && el.wf()
                    && el.idx_spec() == old(self).inner.raw.elements@.len() - old(self).remaining()
                &&& final(self).remaining() == old(self).remaining() - 1
            },
    {
        match self.cursor {
            Some(c) => {
                self.cursor = c.next();
                Some(c)
            },
            None => None,
        }
    }
}

} // verus!
