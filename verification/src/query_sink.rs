//! The buffer between the thread on which WMI delivers the results of an
//! asynchronous query and the stream that hands them out.

use vstd::prelude::*;

verus! {

/// What a poll of the result stream gives.
#[derive(Debug, PartialEq)]
pub enum Polled<T> {
    /// An item, or `None` once the query is done and every item was taken.
    Ready(Option<T>),
    /// Nothing yet: the stream must be woken when items or the end arrive.
    Pending,
}

/// The results received so far and not yet taken, whether WMI has reported
/// the end of the query, and the waker of the task that last polled (`W`).
pub struct AsyncQueryResultStreamImpl<T, W> {
    buf: Vec<T>,
    is_done: bool,
    waker: Option<W>,
}

impl<T, W> AsyncQueryResultStreamImpl<T, W> {
    /// The results waiting to be taken, oldest first.
    pub closed spec fn items(self) -> Seq<T> {
        self.buf@
    }

    /// WMI has reported the end of the query.
    pub closed spec fn done(self) -> bool {
        self.is_done
    }

    /// The waker registered by the last poll, if any.
    pub closed spec fn registered(self) -> Option<W> {
        self.waker
    }

    /// An empty buffer of a query that is still running, with no waker.
    pub fn new() -> (r: Self)
        ensures
            r.items() == Seq::<T>::empty(),
            !r.done(),
            r.registered() is None,
    {
        AsyncQueryResultStreamImpl { buf: Vec::new(), is_done: false, waker: None }
    }

    /// The waker to wake, if a task has polled.
    pub fn waker(&self) -> (r: Option<&W>)
        ensures
            match self.registered() {
                Some(w) => r == Some(&w),
                None => r is None,
            },
    {
        match &self.waker {
            Some(w) => Some(w),
            None => None,
        }
    }

    /// Adds results that WMI delivered; returns whether the polling task
    /// must be woken (it must whenever one has polled).
    pub fn extend(&mut self, items: Vec<T>) -> (wake: bool)
        ensures
            final(self).items() == old(self).items() + items@,
            final(self).done() == old(self).done(),
            final(self).registered() == old(self).registered(),
            wake == old(self).registered() is Some,
    {
        let mut items = items;
        self.buf.append(&mut items);
        self.waker.is_some()
    }

    /// Records that WMI reported the end of the query; returns whether the
    /// polling task must be woken.
    pub fn set_done(&mut self) -> (wake: bool)
        ensures
            final(self).items() == old(self).items(),
            final(self).done(),
            final(self).registered() == old(self).registered(),
            wake == old(self).registered() is Some,
    {
        self.is_done = true;
        self.waker.is_some()
    }

    /// Takes the next result for a task that polls, registering its waker
    /// (`new_waker` is `None` when the registered one already wakes that
    /// task). The most recently received result is handed out first; with
    /// none left, the stream ends if the query is done and waits otherwise.
    pub fn poll_next(&mut self, new_waker: Option<W>) -> (r: Polled<T>)
        ensures
            final(self).registered() == (match new_waker {
                Some(w) => Some(w),
                None => old(self).registered(),
            }),
            final(self).done() == old(self).done(),
            old(self).items().len() > 0 ==> {
                &&& r == Polled::Ready(Some(old(self).items().last()))
                &&& final(self).items() == old(self).items().drop_last()
            },
            old(self).items().len() == 0 ==> {
                &&& final(self).items() == old(self).items()
                &&& r == (if old(self).done() { Polled::<T>::Ready(None) } else { Polled::<T>::Pending })
            },
    {
        if let Some(w) = new_waker {
            self.waker = Some(w);
        }
        match self.buf.pop() {
            Some(item) => Polled::Ready(Some(item)),
            None => {
                if self.is_done {
                    Polled::Ready(None)
                } else {
                    Polled::Pending
                }
            },
        }
    }
}

impl<T, W> Default for AsyncQueryResultStreamImpl<T, W> {
    fn default() -> (r: Self)
        ensures
            r.items() == Seq::<T>::empty(),
            !r.done(),
            r.registered() is None,
    {
        Self::new()
    }
}

} // verus!
