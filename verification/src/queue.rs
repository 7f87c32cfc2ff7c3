//! The queue in its two forms: owned by one party, with exact contracts,
//! and shared between threads.

use crate::backend::{
    queue_contents, seg_is_empty, seg_len, seg_new, seg_pop, seg_pop_mut, seg_push, seg_push_mut,
    seg_share, seg_shared_is_empty, seg_shared_len, seg_unshare, shared_start, SharedSeg,
};
use crossbeam::queue::SegQueue;
use vstd::prelude::*;

verus! {

/// What `pop` returns on a queue that holds `waiting`.
pub open spec fn head_of(waiting: Seq<usize>) -> Option<usize> {
    if waiting.len() == 0 {
        None
    } else {
        Some(waiting[0])
    }
}

/// What a queue that held `waiting` holds after a `pop`.
pub open spec fn rest_of(waiting: Seq<usize>) -> Seq<usize> {
    if waiting.len() == 0 {
        waiting
    } else {
        waiting.skip(1)
    }
}

/// An unbounded first-in-first-out queue that one party owns.
///
/// Its view is the sequence of waiting messages, oldest first.
pub struct Queue {
    inner: SegQueue<usize>,
}

impl View for Queue {
    type V = Seq<usize>;

    closed spec fn view(&self) -> Seq<usize> {
        queue_contents(self.inner)
    }
}

impl Queue {
    /// An empty queue.
    pub fn new() -> (q: Queue)
        ensures
            q@ == Seq::<usize>::empty(),
    {
        Queue { inner: seg_new() }
    }

    /// Puts `value` behind all waiting messages. Never fails.
    pub fn push(&mut self, value: usize)
        ensures
            final(self)@ == old(self)@.push(value),
    {
        seg_push_mut(&mut self.inner, value)
    }

    /// Takes the oldest message out, or returns `None` and changes nothing
    /// if none waits.
    pub fn pop(&mut self) -> (r: Option<usize>)
        ensures
            r == head_of(old(self)@),
            final(self)@ == rest_of(old(self)@),
    {
        seg_pop_mut(&mut self.inner)
    }

    /// The number of waiting messages.
    pub fn len(&self) -> (n: usize)
        ensures
            n == self@.len(),
    {
        seg_len(&self.inner)
    }

    /// Whether no message waits.
    pub fn is_empty(&self) -> (b: bool)
        ensures
            b == (self@.len() == 0),
    {
        seg_is_empty(&self.inner)
    }

    /// Gives the queue up for sharing between threads. The messages that
    /// wait stay in it: the sharing starts with them.
    pub fn into_shared(self) -> (s: SharedQueue)
        ensures
            s.held_at_start() == self@,
    {
        SharedQueue { inner: seg_share(self.inner) }
    }
}

impl Default for Queue {
    fn default() -> (q: Queue)
        ensures
            q@ == Seq::<usize>::empty(),
    {
        Queue::new()
    }
}

/// The same queue while any number of threads push and pop through `&`.
///
/// It has no view. Between two calls of one thread the others may have
/// pushed and popped, so no contract here says what the queue holds now or
/// what a `pop` finds: a caller decides on the value that came back. What
/// is known of a shared queue is what it held when the sharing began. What
/// the calls of all threads then amount to is a history that runs on those
/// messages, see [`crate::history`].
pub struct SharedQueue {
    inner: SharedSeg,
}

impl SharedQueue {
    /// The messages that waited when the sharing began, oldest first. They
    /// are the `waiting` of the history that the threads write from then
    /// on.
    pub closed spec fn held_at_start(&self) -> Seq<usize> {
        shared_start(self.inner)
    }

    /// A queue for sharing, empty at first.
    pub fn new() -> (s: SharedQueue)
        ensures
            s.held_at_start() == Seq::<usize>::empty(),
    {
        SharedQueue { inner: seg_share(seg_new()) }
    }

    /// Puts `value` into the queue. Never fails and never waits for room.
    pub fn push(&self, value: usize) {
        seg_push(&self.inner, value)
    }

    /// Takes a message out if the queue is seen to hold one at this moment,
    /// and returns `None` if not.
    pub fn pop(&self) -> Option<usize> {
        seg_pop(&self.inner)
    }

    /// The number of waiting messages at some moment of the call. Other
    /// threads may have pushed and popped since: a snapshot, out of date as
    /// soon as it is taken.
    pub fn len(&self) -> usize {
        seg_shared_len(&self.inner)
    }

    /// Whether no message waited at some moment of the call. A snapshot, as
    /// [`SharedQueue::len`] is.
    pub fn is_empty(&self) -> bool {
        seg_shared_is_empty(&self.inner)
    }

    /// Ends the sharing: the caller owns the queue again, with whatever the
    /// threads have left in it.
    pub fn into_queue(self) -> Queue {
        Queue { inner: seg_unshare(self.inner) }
    }
}

} // verus!
