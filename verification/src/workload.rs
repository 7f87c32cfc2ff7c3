//! The access patterns that keep to one thread or need no waiting: filling
//! a queue with numbered messages and taking them out again.

use crate::queue::{Queue, SharedQueue};
use crate::worker::{Role, Worker};
use vstd::prelude::*;

verus! {

/// How many messages a pattern sends in all.
pub const MESSAGES: usize = 5_000_000;

/// How many producers share the work where there are several, and how many
/// consumers.
pub const THREADS: usize = 4;

/// How many messages each of several producers sends, and each of several
/// consumers receives.
pub const SHARE: usize = MESSAGES / THREADS;

/// The messages `0, 1, .., count - 1`: a message is its number.
pub open spec fn numbers(count: nat) -> Seq<usize> {
    Seq::new(count, |i: int| i as usize)
}

/// How many messages `count` pops take out of a queue that holds `waiting`.
pub open spec fn taken(count: nat, waiting: nat) -> nat {
    if count <= waiting {
        count
    } else {
        waiting
    }
}

/// Pushes the messages `0, 1, .., count - 1`, in this order, behind what
/// waits in `q`.
pub fn fill(q: &mut Queue, count: usize)
    ensures
        final(q)@ == old(q)@ + numbers(count as nat),
{
    let mut next: usize = 0;
    while next < count
        invariant
            next <= count,
            q@ == old(q)@ + numbers(next as nat),
        decreases count - next,
    {
        q.push(next);
        assert(numbers(next as nat).push(next) =~= numbers((next + 1) as nat));
        next += 1;
    }
}

/// Pops up to `count` messages and returns them in the order in which they
/// left the queue. Stops early where the queue runs empty.
pub fn drain(q: &mut Queue, count: usize) -> (got: Vec<usize>)
    ensures
        got@ == old(q)@.take(taken(count as nat, old(q)@.len()) as int),
        final(q)@ == old(q)@.skip(taken(count as nat, old(q)@.len()) as int),
{
    let mut got: Vec<usize> = Vec::new();
    let mut done: usize = 0;
    while done < count
        invariant
            done <= count,
            done <= old(q)@.len(),
            got@ == old(q)@.take(done as int),
            q@ == old(q)@.skip(done as int),
        decreases count - done,
    {
        match q.pop() {
            Some(message) => {
                got.push(message);
                assert(old(q)@.take(done as int).push(old(q)@[done as int]) =~= old(q)@.take(
                    done + 1,
                ));
                assert(old(q)@.skip(done as int).skip(1) =~= old(q)@.skip(done + 1));
                done += 1;
            },
            None => {
                return got;
            },
        }
    }
    got
}

/// The sequential pattern: one party pushes `messages` messages into a new
/// queue and then pops as many. Returns what the pops gave: every message,
/// in the order of the pushes.
pub fn seq(messages: usize) -> (got: Vec<usize>)
    ensures
        got@ == numbers(messages as nat),
{
    let mut q = Queue::new();
    fill(&mut q, messages);
    let got = drain(&mut q, messages);
    assert(numbers(messages as nat).take(messages as int) =~= numbers(messages as nat));
    got
}

/// The work of one producer thread: runs a [`Role::Producer`] of `count`
/// rounds to its end on a shared queue. Each round pushes the message that
/// the worker hands out for it, so the pushes are of `0, 1, .., count - 1`,
/// in this order (see [`crate::worker::law_producer_sends`]). Returns the
/// worker as it ends: all `count` rounds are done.
pub fn produce(q: &SharedQueue, count: usize) -> (w: Worker)
    ensures
        w == (Worker { role: Role::Producer, rounds: count, round: count, midway: false }),
{
    let mut worker = Worker::new(Role::Producer, count);
    while worker.round < count
        invariant
            worker.role == Role::Producer,
            worker.rounds == count,
            worker.round <= count,
            !worker.midway,
        decreases count - worker.round,
    {
        worker.step(q, q);
    }
    worker
}

} // verus!
