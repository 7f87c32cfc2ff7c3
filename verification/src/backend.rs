//! The boundary to `crossbeam::queue::SegQueue`.
//!
//! Nothing in this file is proved. Each function hands one call on to the
//! outside queue, and its contract is taken on trust from that queue's
//! source and documentation. The rest of the crate is verified against
//! these contracts.

use crossbeam::queue::SegQueue;
use vstd::prelude::*;

verus! {

/// Makes `crossbeam::queue::SegQueue` known to the verifier as an opaque
/// type: a value of it can be held and passed on, nothing inside it is seen.
#[verifier::external_type_specification]
#[verifier::external_body]
#[verifier::reject_recursive_types(T)]
pub struct ExSegQueue<T>(SegQueue<T>);

/// The messages that wait in a queue, the one that leaves next at index 0.
///
/// This is what the queue holds while one owner has it to itself. A queue
/// that several threads reach through `&` changes under the reader: such a
/// queue is a [`SharedSeg`], of which this function does not speak.
pub uninterp spec fn queue_contents(q: SegQueue<usize>) -> Seq<usize>;

/// `SegQueue::new`: "Creates a new unbounded queue", which holds nothing.
#[verifier::external_body]
pub(crate) fn seg_new() -> (q: SegQueue<usize>)
    ensures
        queue_contents(q) == Seq::<usize>::empty(),
{
    SegQueue::new()
}

/// `SegQueue::push_mut`: "Pushes an element to the queue with exclusive
/// mutable access". The element goes behind all that wait; they stay as
/// they are.
#[verifier::external_body]
pub(crate) fn seg_push_mut(q: &mut SegQueue<usize>, value: usize)
    ensures
        queue_contents(*final(q)) == queue_contents(*old(q)).push(value),
{
    q.push_mut(value)
}

/// `SegQueue::pop_mut`: "Pops the head element from the queue using an
/// exclusive reference. If the queue is empty, `None` is returned."
/// Otherwise the element that has waited longest is returned and leaves;
/// the others keep their order.
#[verifier::external_body]
pub(crate) fn seg_pop_mut(q: &mut SegQueue<usize>) -> (r: Option<usize>)
    ensures
        queue_contents(*old(q)).len() == 0 ==> r.is_none() && queue_contents(*final(q))
            == queue_contents(*old(q)),
        queue_contents(*old(q)).len() > 0 ==> r == Some(queue_contents(*old(q))[0])
            && queue_contents(*final(q)) == queue_contents(*old(q)).skip(1),
{
    q.pop_mut()
}

/// `SegQueue::len`: "Returns the number of elements in the queue". The
/// caller holds a queue in its owned form: every push and pop on that form
/// takes `&mut`, so none runs during the call or between two calls on one
/// `&`.
#[verifier::external_body]
pub(crate) fn seg_len(q: &SegQueue<usize>) -> (n: usize)
    ensures
        n == queue_contents(*q).len(),
{
    q.len()
}

/// `SegQueue::is_empty`: "Returns `true` if the queue is empty". As with
/// `seg_len`, the queue is in its owned form.
#[verifier::external_body]
pub(crate) fn seg_is_empty(q: &SegQueue<usize>) -> (b: bool)
    ensures
        b == (queue_contents(*q).len() == 0),
{
    q.is_empty()
}

/// A `SegQueue` in its shared form: threads push and pop through `&`.
///
/// The verifier takes a value behind `&` to stay as it is, and a shared
/// queue does not. So this type is opaque, and [`queue_contents`] does not
/// speak of it: nothing that the verifier knows of a value of this type
/// depends on what the queue holds at the moment.
#[verifier::external_body]
pub struct SharedSeg {
    inner: SegQueue<usize>,
}

/// The messages that waited in a queue at the moment it took its shared
/// form, the oldest at index 0. Fixed from then on, whatever the threads do.
pub uninterp spec fn shared_start(s: SharedSeg) -> Seq<usize>;

/// Moves a queue into its shared form. The queue is the same one: what
/// waits in it is what the sharing starts with.
#[verifier::external_body]
pub(crate) fn seg_share(q: SegQueue<usize>) -> (s: SharedSeg)
    ensures
        shared_start(s) == queue_contents(q),
{
    SharedSeg { inner: q }
}

/// Moves a queue back into its owned form. What it holds then is what the
/// threads have left in it: nothing is claimed of it.
#[verifier::external_body]
pub(crate) fn seg_unshare(s: SharedSeg) -> (q: SegQueue<usize>) {
    s.inner
}

/// `SegQueue::push` on a shared queue. Other threads may push and pop at the
/// same time, so nothing is claimed.
#[verifier::external_body]
pub(crate) fn seg_push(q: &SharedSeg, value: usize) {
    q.inner.push(value)
}

/// `SegQueue::pop` on a shared queue. Whether an element comes back, and
/// which, depends on what other threads do: nothing is claimed of the
/// result.
#[verifier::external_body]
pub(crate) fn seg_pop(q: &SharedSeg) -> (r: Option<usize>) {
    q.inner.pop()
}

/// `SegQueue::len` on a shared queue. The number was right at some moment
/// of the call and may be out of date when it arrives: nothing is claimed
/// of it.
#[verifier::external_body]
pub(crate) fn seg_shared_len(q: &SharedSeg) -> (n: usize) {
    q.inner.len()
}

/// `SegQueue::is_empty` on a shared queue. As with `seg_shared_len`,
/// nothing is claimed of the answer.
#[verifier::external_body]
pub(crate) fn seg_shared_is_empty(q: &SharedSeg) -> (b: bool) {
    q.inner.is_empty()
}

} // verus!
