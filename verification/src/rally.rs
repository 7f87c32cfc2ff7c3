//! The ping-pong pattern: two workers and two queues.
//!
//! `Ping` pushes the number of its round into the first queue and waits for
//! the acknowledgment from the second; `Pong` waits for a message from the
//! first queue and pushes the number of its round into the second. Each of
//! them runs on a thread of its own, so their actions interleave in an
//! order that nobody controls. A schedule says whose turn it is, turn by
//! turn; the laws hold of every schedule.

use crate::queue::{head_of, rest_of};
use crate::worker::{Action, Role, Worker};
use crate::workload::numbers;
use vstd::prelude::*;

verus! {

/// One of the two players.
pub enum Side {
    /// The player that sends first.
    Ping,
    /// The player that answers.
    Pong,
}

/// The two workers, what waits in the two queues, and what each worker has
/// received so far.
pub struct Rally {
    /// The worker that sends first.
    pub ping: Worker,
    /// The worker that answers.
    pub pong: Worker,
    /// What waits in the first queue, from `ping` to `pong`.
    pub to_pong: Seq<usize>,
    /// What waits in the second queue, from `pong` to `ping`.
    pub to_ping: Seq<usize>,
    /// The acknowledgments that `ping` has received, oldest first.
    pub ping_seen: Seq<usize>,
    /// The messages that `pong` has received, oldest first.
    pub pong_seen: Seq<usize>,
}

/// What a worker has received, after a pop that returned `popped`.
pub open spec fn seen_after(seen: Seq<usize>, popped: Option<usize>) -> Seq<usize> {
    match popped {
        Some(message) => seen.push(message),
        None => seen,
    }
}

/// A rally of `rounds` rounds before the first turn.
pub open spec fn start(rounds: usize) -> Rally {
    Rally {
        ping: Worker { role: Role::Ping, rounds, round: 0, midway: false },
        pong: Worker { role: Role::Pong, rounds, round: 0, midway: false },
        to_pong: Seq::empty(),
        to_ping: Seq::empty(),
        ping_seen: Seq::empty(),
        pong_seen: Seq::empty(),
    }
}

/// The rally after one turn of `side`: the worker performs the action that
/// is due on its queues. A pop that finds nothing, and the turn of a worker
/// that is done, change nothing.
pub open spec fn turn(r: Rally, side: Side) -> Rally {
    match side {
        Side::Ping => match r.ping.wants() {
            Action::Push(message) => Rally {
                ping: r.ping.after_push(),
                to_pong: r.to_pong.push(message),
                ..r
            },
            Action::Pop => Rally {
                ping: r.ping.after_pop(head_of(r.to_ping)),
                to_ping: rest_of(r.to_ping),
                ping_seen: seen_after(r.ping_seen, head_of(r.to_ping)),
                ..r
            },
            _ => r,
        },
        Side::Pong => match r.pong.wants() {
            Action::Push(message) => Rally {
                pong: r.pong.after_push(),
                to_ping: r.to_ping.push(message),
                ..r
            },
            Action::Pop => Rally {
                pong: r.pong.after_pop(head_of(r.to_pong)),
                to_pong: rest_of(r.to_pong),
                pong_seen: seen_after(r.pong_seen, head_of(r.to_pong)),
                ..r
            },
            _ => r,
        },
    }
}

/// A rally of `rounds` rounds after the turns of `schedule`.
pub open spec fn play(rounds: usize, schedule: Seq<Side>) -> Rally
    decreases schedule.len(),
{
    if schedule.len() == 0 {
        start(rounds)
    } else {
        turn(play(rounds, schedule.drop_last()), schedule.last())
    }
}

/// How many messages `pong` has received.
pub open spec fn pong_count(r: Rally) -> nat {
    if r.pong.midway {
        (r.pong.round + 1) as nat
    } else {
        r.pong.round as nat
    }
}

/// The two workers are in step: at most one message is under way, and it
/// is the one that its receiver waits for.
pub open spec fn in_step(r: Rally, rounds: usize) -> bool {
    &&& r.ping.role == Role::Ping
    &&& r.pong.role == Role::Pong
    &&& r.ping.rounds == rounds
    &&& r.pong.rounds == rounds
    &&& r.ping.round <= rounds
    &&& r.pong.round <= rounds
    &&& r.ping.midway ==> r.ping.round < rounds
    &&& r.pong.midway ==> r.pong.round < rounds
    &&& r.ping_seen == numbers(r.ping.round as nat)
    &&& r.pong_seen == numbers(pong_count(r))
    &&& if !r.ping.midway {
        // Ping is about to send, or done: nothing is under way.
        &&& r.to_pong.len() == 0
        &&& r.to_ping.len() == 0
        &&& r.pong.round == r.ping.round
        &&& !r.pong.midway
    } else if r.to_pong.len() > 0 {
        // The message is under way.
        &&& r.to_pong.len() == 1
        &&& r.to_pong[0] == r.ping.round
        &&& r.to_ping.len() == 0
        &&& r.pong.round == r.ping.round
        &&& !r.pong.midway
    } else if r.pong.midway {
        // Pong has the message and is about to acknowledge it.
        &&& r.to_ping.len() == 0
        &&& r.pong.round == r.ping.round
    } else {
        // The acknowledgment is under way.
        &&& r.to_ping.len() == 1
        &&& r.to_ping[0] == r.ping.round
        &&& r.pong.round == r.ping.round + 1
    }
}

/// A turn of either side keeps the workers in step.
pub proof fn lemma_turn_keeps_step(r: Rally, rounds: usize, side: Side)
    requires
        in_step(r, rounds),
    ensures
        in_step(turn(r, side), rounds),
{
    assert(numbers(r.ping.round as nat).push(r.ping.round) =~= numbers(
        (r.ping.round + 1) as nat,
    ));
    assert(numbers(r.pong.round as nat).push(r.pong.round) =~= numbers(
        (r.pong.round + 1) as nat,
    ));
}

/// Whatever the schedule, the workers stay in step.
pub proof fn law_rally_in_step(rounds: usize, schedule: Seq<Side>)
    ensures
        in_step(play(rounds, schedule), rounds),
    decreases schedule.len(),
{
    if schedule.len() == 0 {
        assert(numbers(0) =~= Seq::<usize>::empty());
    } else {
        law_rally_in_step(rounds, schedule.drop_last());
        lemma_turn_keeps_step(play(rounds, schedule.drop_last()), rounds, schedule.last());
    }
}

/// Whatever the schedule, each side receives the numbers `0, 1, 2, ..` in
/// this order, so what it sees rises strictly; `ping` has received an
/// acknowledgment for every message that `pong` has received but, at most,
/// the last; and nobody receives more than `rounds` messages.
pub proof fn law_rally_order(rounds: usize, schedule: Seq<Side>)
    ensures
        ({
            let r = play(rounds, schedule);
            &&& r.ping_seen == numbers(r.ping_seen.len())
            &&& r.pong_seen == numbers(r.pong_seen.len())
            &&& r.ping_seen.len() <= r.pong_seen.len() <= r.ping_seen.len() + 1
            &&& r.pong_seen.len() <= rounds
        }),
{
    law_rally_in_step(rounds, schedule);
}

/// Whatever the schedule, once `ping` is done so is `pong`, both queues are
/// empty, and each side has received every number below `rounds`.
pub proof fn law_rally_end(rounds: usize, schedule: Seq<Side>)
    ensures
        ({
            let r = play(rounds, schedule);
            r.ping.finished() ==> {
                &&& r.pong.finished()
                &&& r.to_pong.len() == 0
                &&& r.to_ping.len() == 0
                &&& r.ping_seen == numbers(rounds as nat)
                &&& r.pong_seen == numbers(rounds as nat)
            }
        }),
{
    law_rally_in_step(rounds, schedule);
}

/// Nobody waits for ever: until `ping` is done, one of the two sides has a
/// turn that changes the rally, a push or a pop that finds its message.
pub proof fn law_rally_moves(rounds: usize, schedule: Seq<Side>)
    ensures
        ({
            let r = play(rounds, schedule);
            !r.ping.finished() ==> turn(r, Side::Ping) != r || turn(r, Side::Pong) != r
        }),
{
    law_rally_in_step(rounds, schedule);
    let r = play(rounds, schedule);
    if !r.ping.finished() {
        if !r.ping.midway {
            assert(turn(r, Side::Ping).ping.midway);
        } else if r.to_pong.len() > 0 {
            assert(turn(r, Side::Pong).pong.midway);
        } else if r.pong.midway {
            assert(!turn(r, Side::Pong).pong.midway);
        } else {
            assert(!turn(r, Side::Ping).ping.midway);
        }
    }
}

} // verus!
