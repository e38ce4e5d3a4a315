//! The one-slot mailbox between two stages of a pipeline: a new value
//! replaces one that was not taken yet, so the reader always sees the
//! latest; either side may close it.

use vstd::prelude::*;

verus! {

/// A one-slot mailbox.
pub struct Mailbox<T> {
    slot: Option<T>,
    closed: bool,
}

/// What a reader finds.
pub enum Received<T> {
    /// The mailbox is closed.
    Closed,
    /// The latest value, now taken.
    Item(T),
    /// Nothing new yet.
    Empty,
}

/// `after` is `before` with `item` put in.
pub open spec fn pushed<T>(before: Mailbox<T>, after: Mailbox<T>, item: T) -> bool {
    after.slot() == Some(item) && after.is_closed() == before.is_closed()
}

/// `after` is `before` once a reader has looked, and `r` is what it found.
pub open spec fn received<T>(before: Mailbox<T>, after: Mailbox<T>, r: Received<T>) -> bool {
    &&& after.is_closed() == before.is_closed()
    &&& before.is_closed() ==> r is Closed && after.slot() == before.slot()
    &&& !before.is_closed() ==> after.slot() is None && match before.slot() {
        Some(x) => r == Received::Item(x),
        None => r is Empty,
    }
}

/// Of several values put in before the reader looks, the reader finds the
/// last one, and then nothing more.
pub proof fn law_latest_value_wins<T>(
    m0: Mailbox<T>,
    m1: Mailbox<T>,
    m2: Mailbox<T>,
    m3: Mailbox<T>,
    m4: Mailbox<T>,
    a: T,
    b: T,
    r: Received<T>,
    r2: Received<T>,
)
    requires
        !m0.is_closed(),
        pushed(m0, m1, a),
        pushed(m1, m2, b),
        received(m2, m3, r),
        received(m3, m4, r2),
    ensures
        r == Received::Item(b),
        r2 is Empty,
{
}

/// Once closed, a mailbox hands the reader nothing.
pub proof fn law_closed_yields_nothing<T>(m0: Mailbox<T>, m1: Mailbox<T>, r: Received<T>)
    requires
        m0.is_closed(),
        received(m0, m1, r),
    ensures
        r is Closed,
{
}

impl<T> Mailbox<T> {
    /// The value waiting, if any.
    pub closed spec fn slot(self) -> Option<T> {
        self.slot
    }

    /// Whether either side closed the mailbox.
    pub closed spec fn is_closed(self) -> bool {
        self.closed
    }

    /// An open, empty mailbox.
    pub fn new() -> (r: Mailbox<T>)
        ensures
            r.slot() is None,
            !r.is_closed(),
    {
        Mailbox { slot: None, closed: false }
    }

    /// Puts a value in, replacing any value not taken yet; answers whether
    /// the reader is still there.
    pub fn push(&mut self, item: T) -> (r: bool)
        ensures
            pushed(*old(self), *final(self), item),
            r == !old(self).is_closed(),
    {
        self.slot = Some(item);
        !self.closed
    }

    /// Puts a value in unless the mailbox is closed, in which case the value
    /// is handed back.
    pub fn offer(&mut self, item: T) -> (r: Result<(), T>)
        ensures
            old(self).is_closed() ==> r == Err::<(), T>(item) && final(self).slot() == old(self).slot(),
            !old(self).is_closed() ==> r is Ok && final(self).slot() == Some(item),
            final(self).is_closed() == old(self).is_closed(),
    {
        if self.closed {
            Err(item)
        } else {
            self.slot = Some(item);
            Ok(())
        }
    }

    /// Takes the waiting value, if any, unless the mailbox is closed.
    pub fn receive(&mut self) -> (r: Received<T>)
        ensures
            received(*old(self), *final(self), r),
    {
        if self.closed {
            Received::Closed
        } else {
            match self.slot.take() {
                Some(x) => Received::Item(x),
                None => Received::Empty,
            }
        }
    }

    /// Closes the mailbox; the side still holding it learns of it on its
    /// next call.
    pub fn close(&mut self)
        ensures
            final(self).is_closed(),
            final(self).slot() == old(self).slot(),
    {
        self.closed = true;
    }

    /// Whether the mailbox is closed.
    pub fn closed(&self) -> (r: bool)
        ensures
            r == self.is_closed(),
    {
        self.closed
    }
}

} // verus!
