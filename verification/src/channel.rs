//! A bounded lock-free channel between the plugin's threads, on top of
//! `crossbeam_queue::ArrayQueue`.
//!
//! The queue is shared and changed through shared references by the threads
//! on both ends, so what a push or a pop finds depends on the other threads:
//! the contracts state only what holds whatever the other side did.

use crossbeam_queue::ArrayQueue;
use std::sync::Arc;
use vstd::prelude::*;

verus! {

#[verifier::external_type_specification]
#[verifier::external_body]
#[verifier::reject_recursive_types(T)]
pub struct ExArrayQueue<T>(ArrayQueue<T>);

/// `ArrayQueue::new` panics when the capacity is zero or when one more than it
/// has no power of two in `usize`; those capacities are excluded. (Running out
/// of memory for the slots aborts; that is not stated.)
pub assume_specification<T>[ ArrayQueue::<T>::new ](cap: usize) -> ArrayQueue<T>
    requires
        0 < cap <= usize::MAX / 2,
;

/// `ArrayQueue::push` either stores the value or, when the queue is full,
/// hands the same value back as the error. Which of the two happens depends on
/// the other threads and is not stated.
pub assume_specification<T>[ ArrayQueue::<T>::push ](q: &ArrayQueue<T>, value: T) -> (r: Result<(), T>)
    ensures
        r matches Err(v) ==> v == value,
;

/// `ArrayQueue::pop` takes the oldest value, or gives `None` when the queue is
/// empty. What it returns depends on the other threads and is not stated.
pub assume_specification<T>[ ArrayQueue::<T>::pop ](q: &ArrayQueue<T>) -> Option<T>;

/// `Arc::clone`: a new pointer to the same allocation, so it stands for the
/// same value as the original.
#[verifier::external_body]
fn arc_clone<T>(a: &Arc<T>) -> (r: Arc<T>)
    ensures
        r == *a,
{
    Arc::clone(a)
}

/// The sending end of a channel.
#[verifier::reject_recursive_types(T)]
pub struct Sender<T>(Arc<ArrayQueue<T>>);

/// The receiving end of a channel.
#[verifier::reject_recursive_types(T)]
pub struct Receiver<T>(Arc<ArrayQueue<T>>);

impl<T> Sender<T> {
    /// The queue that this end sends into. Ends with equal queues were made
    /// from one another (by `channel`, `clone`, `new_receiver` or
    /// `new_sender`), which share one allocation; the equality itself is of
    /// the pointed-to value.
    pub closed spec fn queue(self) -> Arc<ArrayQueue<T>> {
        self.0
    }
}

impl<T> Receiver<T> {
    /// The queue that this end receives from (see [`Sender::queue`]).
    pub closed spec fn queue(self) -> Arc<ArrayQueue<T>> {
        self.0
    }
}

/// A channel that holds at most `capacity` values in flight: a sending and a
/// receiving end on one queue.
pub fn channel<T>(capacity: usize) -> (r: (Sender<T>, Receiver<T>))
    requires
        0 < capacity <= usize::MAX / 2,
    ensures
        r.0.queue() == r.1.queue(),
{
    let q = Arc::new(ArrayQueue::new(capacity));
    (Sender(arc_clone(&q)), Receiver(q))
}

impl<T> Sender<T> {
    /// Sends `val`, or hands it back when the channel is full.
    pub fn push(&self, val: T) -> (r: Result<(), T>)
        ensures
            r matches Err(v) ==> v == val,
    {
        self.0.push(val)
    }

    /// Another receiving end of the same channel.
    pub fn new_receiver(&self) -> (r: Receiver<T>)
        ensures
            r.queue() == self.queue(),
    {
        Receiver(arc_clone(&self.0))
    }
}

impl<T> Clone for Sender<T> {
    fn clone(&self) -> (r: Self)
        ensures
            r.queue() == self.queue(),
    {
        Sender(arc_clone(&self.0))
    }
}

impl<T> Receiver<T> {
    /// Takes the oldest value in the channel, if there is one.
    pub fn pop(&self) -> Option<T> {
        self.0.pop()
    }

    /// Another sending end of the same channel.
    pub fn new_sender(&self) -> (r: Sender<T>)
        ensures
            r.queue() == self.queue(),
    {
        Sender(arc_clone(&self.0))
    }
}

} // verus!
