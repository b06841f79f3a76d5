//! A capacity-bounded first-in-first-out handoff buffer.
//!
//! A `send` onto a full channel is rejected without mutating state; callers
//! treat the rejection as backpressure, never as data loss.  `recv` on an
//! empty channel returns `None`, a normal transient condition.

use vstd::prelude::*;

verus! {

pub struct BoundedChannel<T> {
    queue: Vec<T>,
    capacity: usize,
}

impl<T> BoundedChannel<T> {
    /// The messages currently buffered, oldest first.
    pub closed spec fn view(&self) -> Seq<T> {
        self.queue@
    }

    /// The fixed capacity the channel was created with.
    pub closed spec fn cap(&self) -> usize {
        self.capacity
    }

    pub fn new(capacity: usize) -> (c: Self)
        ensures
            c@ == Seq::<T>::empty(),
            c.cap() == capacity,
    {
        Self { queue: Vec::new(), capacity }
    }

    /// Enqueues `message` unless the channel is already at capacity; a full
    /// channel rejects the message and keeps its contents untouched.
    pub fn send(&mut self, message: T) -> (r: Result<(), String>)
        ensures
            old(self)@.len() >= old(self).cap() ==> r is Err && *final(self) == *old(self),
            old(self)@.len() < old(self).cap() ==> r is Ok && final(self)@ == old(self)@.push(
                message,
            ) && final(self).cap() == old(self).cap(),
    {
        if self.queue.len() >= self.capacity {
            return Err("Queue is full".to_string());
        }
        self.queue.push(message);
        Ok(())
    }

    /// Dequeues the oldest message, or returns `None` if the channel is empty.
    pub fn recv(&mut self) -> (r: Option<T>)
        ensures
            old(self)@.len() == 0 ==> r is None && *final(self) == *old(self),
            old(self)@.len() > 0 ==> r == Some(old(self)@[0]) && final(self)@ == old(
                self,
            )@.drop_first() && final(self).cap() == old(self).cap(),
    {
        if self.queue.len() == 0 {
            return None;
        }
        let message = self.queue.remove(0);
        proof {
            assert(self@ =~= old(self)@.drop_first());
        }
        Some(message)
    }

    /// Discards every buffered message.
    pub fn flush(&mut self)
        ensures
            final(self)@ == Seq::<T>::empty(),
            final(self).cap() == old(self).cap(),
    {
        self.queue.clear();
        proof {
            assert(self@ =~= Seq::<T>::empty());
        }
    }
}

} // verus!
