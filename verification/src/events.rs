//! Ordered-subscriber observer utility.
//!
//! `Event<T>` keeps subscribers in registration order. Triggering an event
//! does not run callbacks itself: it returns one `Delivery` per subscriber,
//! in subscription order, all carrying the same value, and the driver drains
//! that list synchronously. This makes the dispatch order and the delivered
//! values part of the event's contract.
use vstd::prelude::*;
use core::marker::PhantomData;

verus! {

/// One pending notification: which subscriber is owed the value, and the
/// value itself.
#[derive(Clone, Copy, Debug, PartialEq, Eq)]
pub struct Delivery<T> {
    pub subscriber: u64,
    pub value: T,
}

/// An ordered callback list. A subscriber is named by a token of the
/// registrant's choosing; subscription order is delivery order, and there is
/// no unsubscribe operation.
#[derive(Debug)]
pub struct Event<T> {
    pub subscribers: Vec<u64>,
    pub marker: PhantomData<T>,
}

impl<T> Event<T> {
    /// An event with no subscribers.
    pub fn new() -> (r: Event<T>)
        ensures
            r.subscribers@ == Seq::<u64>::empty(),
    {
        Event { subscribers: Vec::new(), marker: PhantomData }
    }

    /// Appends a subscriber. Earlier subscribers keep their place.
    pub fn subscribe(&mut self, subscriber: u64)
        ensures
            final(self).subscribers@ == old(self).subscribers@.push(subscriber),
    {
        self.subscribers.push(subscriber);
    }
}

impl<T: Copy> Event<T> {
    /// Notifies every subscriber exactly once, in subscription order, all of
    /// them with the same value.
    pub fn trigger(&self, value: &T) -> (r: Vec<Delivery<T>>)
        ensures
            r@.len() == self.subscribers@.len(),
            forall|i: int|
                0 <= i < r@.len() ==> #[trigger] r@[i] == (Delivery {
                    subscriber: self.subscribers@[i],
                    value: *value,
                }),
    {
        let mut deliveries: Vec<Delivery<T>> = Vec::new();
        let mut i: usize = 0;
        while i < self.subscribers.len()
            invariant
                i <= self.subscribers@.len(),
                deliveries@.len() == i,
                forall|j: int|
                    0 <= j < i ==> #[trigger] deliveries@[j] == (Delivery {
                        subscriber: self.subscribers@[j],
                        value: *value,
                    }),
            decreases self.subscribers@.len() - i,
        {
            deliveries.push(Delivery { subscriber: self.subscribers[i], value: *value });
            i = i + 1;
        }
        deliveries
    }
}

} // verus!
