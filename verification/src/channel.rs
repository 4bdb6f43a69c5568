//! In-memory models of the channels the dispatch layer sends into.
//!
//! The beacon-processor and reprocess channels are bounded with try-send
//! semantics: a send either appends one item or is rejected as `Full` or
//! `Closed`, handing the item back. The network and sync channels are
//! unbounded: a send appends unless the receiving side has shut down.

use vstd::prelude::*;

verus! {

/// Rejection of a non-blocking send on a bounded channel, carrying the
/// rejected item back to the caller.
#[derive(Debug, Clone, PartialEq, Eq)]
pub enum TrySendError<T> {
    /// The channel holds as many items as its capacity allows.
    Full(T),
    /// The receiving side has shut down.
    Closed(T),
}

/// A bounded FIFO channel with non-blocking sends.
#[derive(Debug, Clone, PartialEq, Eq)]
pub struct BoundedChannel<T> {
    /// Items in flight, oldest first.
    pub items: Vec<T>,
    /// Maximum number of items in flight.
    pub cap: usize,
    /// Whether the receiving side has shut down.
    pub closed: bool,
}

impl<T> BoundedChannel<T> {
    pub fn new(cap: usize) -> (r: Self)
        ensures
            r.items@ =~= Seq::<T>::empty(),
            r.cap == cap,
            !r.closed,
    {
        BoundedChannel { items: Vec::new(), cap, closed: false }
    }

    pub fn len(&self) -> (n: usize)
        ensures
            n == self.items@.len(),
    {
        self.items.len()
    }

    /// Marks the receiving side as shut down; items already in flight stay.
    pub fn close(&mut self)
        ensures
            final(self).items == old(self).items,
            final(self).cap == old(self).cap,
            final(self).closed,
    {
        self.closed = true;
    }

    /// Non-blocking send: appends `t` if the channel is open and below
    /// capacity, otherwise hands `t` back inside the error.
    pub fn try_send(&mut self, t: T) -> (r: Result<(), TrySendError<T>>)
        ensures
            old(self).closed ==> r == Err::<(), TrySendError<T>>(TrySendError::Closed(t))
                && *final(self) == *old(self),
            !old(self).closed && old(self).items@.len() >= old(self).cap
                ==> r == Err::<(), TrySendError<T>>(TrySendError::Full(t))
                    && *final(self) == *old(self),
            !old(self).closed && old(self).items@.len() < old(self).cap ==> {
                &&& r == Ok::<(), TrySendError<T>>(())
                &&& final(self).items@ == old(self).items@.push(t)
                &&& final(self).cap == old(self).cap
                &&& final(self).closed == old(self).closed
            },
    {
        if self.closed {
            Err(TrySendError::Closed(t))
        } else if self.items.len() >= self.cap {
            Err(TrySendError::Full(t))
        } else {
            self.items.push(t);
            Ok(())
        }
    }

    /// The receiving side: removes and returns the oldest item, if any.
    pub fn try_recv(&mut self) -> (r: Option<T>)
        ensures
            final(self).cap == old(self).cap,
            final(self).closed == old(self).closed,
            old(self).items@.len() == 0 ==> r is None && *final(self) == *old(self),
            old(self).items@.len() > 0 ==> {
                &&& r == Some(old(self).items@[0])
                &&& final(self).items@ == old(self).items@.skip(1)
            },
    {
        if self.items.len() == 0 {
            None
        } else {
            let t = self.items.remove(0);
            assert(self.items@ =~= old(self).items@.skip(1));
            Some(t)
        }
    }
}

/// An unbounded FIFO channel; a send fails only when the receiving side has
/// shut down, in which case the item is handed back.
#[derive(Debug, Clone, PartialEq, Eq)]
pub struct UnboundedChannel<T> {
    /// Items in flight, oldest first.
    pub items: Vec<T>,
    /// Whether the receiving side has shut down.
    pub closed: bool,
}

impl<T> UnboundedChannel<T> {
    pub fn new() -> (r: Self)
        ensures
            r.items@ =~= Seq::<T>::empty(),
            !r.closed,
    {
        UnboundedChannel { items: Vec::new(), closed: false }
    }

    pub fn len(&self) -> (n: usize)
        ensures
            n == self.items@.len(),
    {
        self.items.len()
    }

    /// Marks the receiving side as shut down.
    pub fn close(&mut self)
        ensures
            final(self).items == old(self).items,
            final(self).closed,
    {
        self.closed = true;
    }

    /// Appends `t` unless the receiving side has shut down.
    pub fn send(&mut self, t: T) -> (r: Result<(), T>)
        ensures
            old(self).closed ==> r == Err::<(), T>(t) && *final(self) == *old(self),
            !old(self).closed ==> {
                &&& r == Ok::<(), T>(())
                &&& final(self).items@ == old(self).items@.push(t)
                &&& !final(self).closed
            },
    {
        if self.closed {
            Err(t)
        } else {
            self.items.push(t);
            Ok(())
        }
    }

    /// The receiving side: removes and returns the oldest item, if any.
    pub fn try_recv(&mut self) -> (r: Option<T>)
        ensures
            final(self).closed == old(self).closed,
            old(self).items@.len() == 0 ==> r is None && *final(self) == *old(self),
            old(self).items@.len() > 0 ==> {
                &&& r == Some(old(self).items@[0])
                &&& final(self).items@ == old(self).items@.skip(1)
            },
    {
        if self.items.len() == 0 {
            None
        } else {
            let t = self.items.remove(0);
            assert(self.items@ =~= old(self).items@.skip(1));
            Some(t)
        }
    }
}

} // verus!
