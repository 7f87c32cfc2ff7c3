//! The threads that send and wait for messages, as state machines.
//!
//! A thread that pops from a shared queue cannot know whether a message is
//! there: it pops, and where nothing came it gives up its time slice and
//! pops again. Waiting is the caller's business. What a worker decides is
//! here: what to do next, given what the last pop returned.
//!
//! The caller asks [`Worker::action`], performs it on the queues, reports
//! with [`Worker::pushed`] or [`Worker::popped`], and goes on with the
//! action that the report returns, until that is [`Action::Done`]. On
//! shared queues [`Worker::step`] does the three in one call.

use crate::queue::SharedQueue;
use crate::workload::numbers;
use vstd::prelude::*;

verus! {

/// What a worker does in each of its rounds.
#[derive(Clone, Copy, Debug, PartialEq, Eq, Structural)]
pub enum Role {
    /// Sends the round's number.
    Producer,
    /// Receives one message.
    Consumer,
    /// Sends the round's number, then receives the acknowledgment.
    Ping,
    /// Receives a message, then sends the round's number to acknowledge it.
    Pong,
}

/// What the caller is to do for a worker.
#[derive(Clone, Copy, Debug, PartialEq, Eq, Structural)]
pub enum Action {
    /// Push this message into the queue that the worker sends to.
    Push(usize),
    /// Pop from the queue that the worker receives from.
    Pop,
    /// The last pop found nothing: give up the time slice, then pop again.
    Yield,
    /// All rounds are done.
    Done,
}

/// A worker between two actions.
#[derive(Clone, Copy, Debug, PartialEq, Eq, Structural)]
pub struct Worker {
    /// What the worker does in a round.
    pub role: Role,
    /// How many rounds it has to do.
    pub rounds: usize,
    /// How many rounds it has done.
    pub round: usize,
    /// Whether the first of the two actions of a `Ping` or `Pong` round is
    /// done. Never set in a `Producer` or a `Consumer`.
    pub midway: bool,
}

impl Worker {
    /// Whether all rounds are done.
    pub open spec fn finished(self) -> bool {
        self.round >= self.rounds
    }

    /// The action that is due in this state: never `Yield`.
    pub open spec fn wants(self) -> Action {
        if self.finished() {
            Action::Done
        } else {
            match self.role {
                Role::Producer => Action::Push(self.round),
                Role::Consumer => Action::Pop,
                Role::Ping => if self.midway {
                    Action::Pop
                } else {
                    Action::Push(self.round)
                },
                Role::Pong => if self.midway {
                    Action::Push(self.round)
                } else {
                    Action::Pop
                },
            }
        }
    }

    /// The state once the round `self.round` is over.
    pub open spec fn next_round(self) -> Worker {
        Worker { round: (self.round + 1) as usize, midway: false, ..self }
    }

    /// The state after a push was reported. A report that was not due
    /// changes nothing.
    pub open spec fn after_push(self) -> Worker {
        if self.wants() is Push {
            match self.role {
                Role::Ping => Worker { midway: true, ..self },
                _ => self.next_round(),
            }
        } else {
            self
        }
    }

    /// The state after a pop was reported that returned `popped`. A pop
    /// that found nothing, or a report that was not due, changes nothing.
    pub open spec fn after_pop(self, popped: Option<usize>) -> Worker {
        if self.wants() is Pop && popped is Some {
            match self.role {
                Role::Pong => Worker { midway: true, ..self },
                _ => self.next_round(),
            }
        } else {
            self
        }
    }

    /// What the caller is told after a pop that returned `popped`: to yield
    /// where a pop was due and found nothing, else the next action due.
    pub open spec fn reply(self, popped: Option<usize>) -> Action {
        if self.wants() is Pop && popped is None {
            Action::Yield
        } else {
            self.after_pop(popped).wants()
        }
    }

    /// A worker that has `rounds` rounds before it.
    pub fn new(role: Role, rounds: usize) -> (w: Worker)
        ensures
            w == (Worker { role, rounds, round: 0, midway: false }),
    {
        Worker { role, rounds, round: 0, midway: false }
    }

    /// The action that is due.
    pub fn action(&self) -> (a: Action)
        ensures
            a == self.wants(),
    {
        if self.round >= self.rounds {
            Action::Done
        } else {
            match self.role {
                Role::Producer => Action::Push(self.round),
                Role::Consumer => Action::Pop,
                Role::Ping => if self.midway {
                    Action::Pop
                } else {
                    Action::Push(self.round)
                },
                Role::Pong => if self.midway {
                    Action::Push(self.round)
                } else {
                    Action::Pop
                },
            }
        }
    }

    /// Takes note that the message of [`Action::Push`] is in the queue, and
    /// returns the action that is due now.
    pub fn pushed(&mut self) -> (a: Action)
        ensures
            *final(self) == old(self).after_push(),
            a == final(self).wants(),
    {
        match self.action() {
            Action::Push(_) => {
                match self.role {
                    Role::Ping => {
                        self.midway = true;
                    },
                    _ => {
                        self.round = self.round + 1;
                        self.midway = false;
                    },
                }
            },
            _ => {},
        }
        self.action()
    }

    /// Takes note of what a pop returned, and returns what to do now:
    /// [`Action::Yield`] where the pop found nothing, else the action that
    /// is due.
    pub fn popped(&mut self, popped: Option<usize>) -> (a: Action)
        ensures
            *final(self) == old(self).after_pop(popped),
            a == old(self).reply(popped),
    {
        match self.action() {
            Action::Pop => {
                if popped.is_none() {
                    return Action::Yield;
                }
                match self.role {
                    Role::Pong => {
                        self.midway = true;
                    },
                    _ => {
                        self.round = self.round + 1;
                        self.midway = false;
                    },
                }
            },
            _ => {},
        }
        self.action()
    }

    /// Performs the action that is due: a push into `outbox` or a pop from
    /// `inbox`, and takes note of it. Returns what to do now, and what the
    /// pop returned, if there was one. On [`Action::Yield`] the caller
    /// gives up its time slice before the next step; on [`Action::Done`]
    /// it stops.
    ///
    /// Whether a pop from a shared queue finds a message is not known
    /// beforehand. Whatever it returns, the worker goes on from it as
    /// [`Worker::popped`] says.
    pub fn step(&mut self, inbox: &SharedQueue, outbox: &SharedQueue) -> (r: (
        Action,
        Option<usize>,
    ))
        ensures
            old(self).wants() is Push ==> *final(self) == old(self).after_push() && r == (
                final(self).wants(),
                None::<usize>,
            ),
            old(self).wants() is Pop ==> *final(self) == old(self).after_pop(r.1) && r.0 == old(
                self,
            ).reply(r.1),
            old(self).wants() is Done ==> *final(self) == *old(self) && r == (
                Action::Done,
                None::<usize>,
            ),
    {
        match self.action() {
            Action::Push(message) => {
                outbox.push(message);
                (self.pushed(), None)
            },
            Action::Pop => {
                let popped = inbox.pop();
                (self.popped(popped), popped)
            },
            _ => (Action::Done, None),
        }
    }
}

/// How many of the pops in `results` returned a message.
pub open spec fn arrivals(results: Seq<Option<usize>>) -> nat
    decreases results.len(),
{
    if results.len() == 0 {
        0
    } else if results.last() is Some {
        arrivals(results.drop_last()) + 1
    } else {
        arrivals(results.drop_last())
    }
}

/// The state of `w` after pops that returned `results`, in this order, were
/// reported to it.
pub open spec fn after_pops(w: Worker, results: Seq<Option<usize>>) -> Worker
    decreases results.len(),
{
    if results.len() == 0 {
        w
    } else {
        after_pops(w, results.drop_last()).after_pop(results.last())
    }
}

/// A consumer counts the messages that arrive and nothing else: it has done
/// as many rounds as pops returned a message, however many found nothing in
/// between, and it is done as soon as `rounds` messages have arrived.
pub proof fn law_consumer_counts(rounds: usize, results: Seq<Option<usize>>)
    ensures
        ({
            let w = after_pops(
                Worker { role: Role::Consumer, rounds, round: 0, midway: false },
                results,
            );
            &&& w.role == Role::Consumer
            &&& w.rounds == rounds
            &&& !w.midway
            &&& w.round == if arrivals(results) <= rounds {
                arrivals(results)
            } else {
                rounds as nat
            }
            &&& w.finished() <==> arrivals(results) >= rounds
        }),
    decreases results.len(),
{
    if results.len() > 0 {
        law_consumer_counts(rounds, results.drop_last());
    }
}

/// The state of `w` after `count` pushes were reported to it.
pub open spec fn after_pushes(w: Worker, count: nat) -> Worker
    decreases count,
{
    if count == 0 {
        w
    } else {
        after_pushes(w, (count - 1) as nat).after_push()
    }
}

/// The messages that `w` hands out for `count` pushes, one after each
/// report of the one before, in this order. Where no push is due, none is
/// handed out.
pub open spec fn handed_out(w: Worker, count: nat) -> Seq<usize>
    decreases count,
{
    if count == 0 {
        Seq::empty()
    } else {
        let earlier = handed_out(w, (count - 1) as nat);
        match after_pushes(w, (count - 1) as nat).wants() {
            Action::Push(message) => earlier.push(message),
            _ => earlier,
        }
    }
}

/// How many of `count` pushes a worker with `rounds` rounds makes.
pub open spec fn made(count: nat, rounds: usize) -> nat {
    if count <= rounds {
        count
    } else {
        rounds as nat
    }
}

/// A producer sends the numbers of its rounds and nothing else: for its
/// pushes it hands out `0, 1, 2, ..`, one message a round, it has done as
/// many rounds as pushes were reported, and it is done as soon as `rounds`
/// pushes were.
pub proof fn law_producer_sends(rounds: usize, count: nat)
    ensures
        ({
            let start = Worker { role: Role::Producer, rounds, round: 0, midway: false };
            &&& after_pushes(start, count) == Worker {
                round: made(count, rounds) as usize,
                ..start
            }
            &&& handed_out(start, count) == numbers(made(count, rounds))
            &&& after_pushes(start, count).finished() <==> count >= rounds
        }),
    decreases count,
{
    if count > 0 {
        let fewer = (count - 1) as nat;
        law_producer_sends(rounds, fewer);
        assert(numbers(fewer).push(fewer as usize) =~= numbers(count));
    } else {
        assert(numbers(0) =~= Seq::<usize>::empty());
    }
}

} // verus!
