use seg_fifo::queue::{Queue, SharedQueue};
use seg_fifo::worker::{Action, Role, Worker};

#[test]
fn new_worker_has_done_nothing() {
    let w = Worker::new(Role::Ping, 3);
    assert_eq!(w, Worker { role: Role::Ping, rounds: 3, round: 0, midway: false });
}

#[test]
fn worker_without_rounds_is_done() {
    for role in [Role::Producer, Role::Consumer, Role::Ping, Role::Pong] {
        let mut w = Worker::new(role, 0);
        assert_eq!(w.action(), Action::Done);
        assert_eq!(w.popped(Some(1)), Action::Done);
        assert_eq!(w.popped(None), Action::Done);
        assert_eq!(w.pushed(), Action::Done);
        assert_eq!(w, Worker::new(role, 0));
    }
}

#[test]
fn consumer_counts_arrivals() {
    let mut w = Worker::new(Role::Consumer, 3);
    assert_eq!(w.action(), Action::Pop);
    assert_eq!(w.popped(None), Action::Yield);
    assert_eq!(w.round, 0);
    assert_eq!(w.action(), Action::Pop);
    assert_eq!(w.popped(Some(40)), Action::Pop);
    assert_eq!(w.round, 1);
    assert_eq!(w.popped(None), Action::Yield);
    assert_eq!(w.popped(None), Action::Yield);
    assert_eq!(w.popped(Some(41)), Action::Pop);
    assert_eq!(w.round, 2);
    assert_eq!(w.popped(Some(42)), Action::Done);
    assert_eq!(w.round, 3);
    assert_eq!(w.action(), Action::Done);
    assert_eq!(w.popped(Some(43)), Action::Done);
    assert_eq!(w.round, 3);
    assert!(!w.midway);
}

#[test]
fn consumer_ignores_a_push_report() {
    let mut w = Worker::new(Role::Consumer, 2);
    assert_eq!(w.pushed(), Action::Pop);
    assert_eq!(w, Worker::new(Role::Consumer, 2));
}

#[test]
fn ping_sends_then_waits() {
    let mut w = Worker::new(Role::Ping, 2);
    assert_eq!(w.action(), Action::Push(0));
    assert_eq!(w.pushed(), Action::Pop);
    assert_eq!(w, Worker { role: Role::Ping, rounds: 2, round: 0, midway: true });
    assert_eq!(w.popped(None), Action::Yield);
    assert_eq!(w.action(), Action::Pop);
    assert_eq!(w.popped(Some(0)), Action::Push(1));
    assert_eq!(w, Worker { role: Role::Ping, rounds: 2, round: 1, midway: false });
    assert_eq!(w.pushed(), Action::Pop);
    assert_eq!(w.popped(Some(1)), Action::Done);
    assert_eq!(w, Worker { role: Role::Ping, rounds: 2, round: 2, midway: false });
}

#[test]
fn pong_waits_then_sends() {
    let mut w = Worker::new(Role::Pong, 2);
    assert_eq!(w.action(), Action::Pop);
    assert_eq!(w.popped(None), Action::Yield);
    assert_eq!(w.popped(Some(0)), Action::Push(0));
    assert_eq!(w, Worker { role: Role::Pong, rounds: 2, round: 0, midway: true });
    assert_eq!(w.pushed(), Action::Pop);
    assert_eq!(w, Worker { role: Role::Pong, rounds: 2, round: 1, midway: false });
    assert_eq!(w.popped(Some(1)), Action::Push(1));
    assert_eq!(w.pushed(), Action::Done);
    assert_eq!(w, Worker { role: Role::Pong, rounds: 2, round: 2, midway: false });
}

#[test]
fn reports_that_are_not_due_change_nothing() {
    let mut ping = Worker::new(Role::Ping, 2);
    assert_eq!(ping.popped(Some(5)), Action::Push(0));
    assert_eq!(ping.popped(None), Action::Push(0));
    assert_eq!(ping, Worker::new(Role::Ping, 2));
    ping.pushed();
    let waiting = ping;
    assert_eq!(ping.pushed(), Action::Pop);
    assert_eq!(ping, waiting);

    let mut pong = Worker::new(Role::Pong, 2);
    assert_eq!(pong.pushed(), Action::Pop);
    assert_eq!(pong, Worker::new(Role::Pong, 2));
    pong.popped(Some(0));
    let answering = pong;
    assert_eq!(pong.popped(Some(1)), Action::Push(0));
    assert_eq!(pong.popped(None), Action::Push(0));
    assert_eq!(pong, answering);
}

#[test]
fn last_round_does_not_overflow() {
    let mut w = Worker { role: Role::Consumer, rounds: usize::MAX, round: usize::MAX - 1, midway: false };
    assert_eq!(w.popped(Some(0)), Action::Done);
    assert_eq!(w.round, usize::MAX);
    assert_eq!(w.popped(Some(0)), Action::Done);
    assert_eq!(w.round, usize::MAX);
}

/// Lets the worker take one turn on its two queues and notes what it popped.
fn turn(worker: &mut Worker, inbox: &mut Queue, outbox: &mut Queue, seen: &mut Vec<usize>) {
    match worker.action() {
        Action::Push(message) => {
            outbox.push(message);
            worker.pushed();
        }
        Action::Pop => {
            let popped = inbox.pop();
            seen.extend(popped);
            worker.popped(popped);
        }
        _ => {}
    }
}

fn rally(rounds: usize, schedule: &[bool]) -> (Vec<usize>, Vec<usize>) {
    let mut ping = Worker::new(Role::Ping, rounds);
    let mut pong = Worker::new(Role::Pong, rounds);
    let mut to_pong = Queue::new();
    let mut to_ping = Queue::new();
    let mut ping_seen = Vec::new();
    let mut pong_seen = Vec::new();
    let mut turns = 0;
    while ping.action() != Action::Done || pong.action() != Action::Done {
        if schedule[turns % schedule.len()] {
            turn(&mut ping, &mut to_ping, &mut to_pong, &mut ping_seen);
        } else {
            turn(&mut pong, &mut to_pong, &mut to_ping, &mut pong_seen);
        }
        assert!(to_pong.len() + to_ping.len() <= 1);
        assert!(ping_seen.len() <= pong_seen.len() && pong_seen.len() <= ping_seen.len() + 1);
        turns += 1;
        assert!(turns <= 4 * rounds * schedule.len());
    }
    assert!(to_pong.is_empty() && to_ping.is_empty());
    (ping_seen, pong_seen)
}

#[test]
fn rally_in_turns() {
    let (ping_seen, pong_seen) = rally(100, &[true, false]);
    assert_eq!(ping_seen, (0..100).collect::<Vec<usize>>());
    assert_eq!(pong_seen, (0..100).collect::<Vec<usize>>());
}

#[test]
fn rally_under_uneven_schedules() {
    let schedules: [&[bool]; 5] = [
        &[false, true],
        &[true, true, true, false],
        &[false, false, false, true],
        &[true, false, false, true, true, false, true],
        &[false, true, true, true, false, false, false, false, true],
    ];
    for schedule in schedules {
        let (ping_seen, pong_seen) = rally(50, schedule);
        assert_eq!(ping_seen, (0..50).collect::<Vec<usize>>());
        assert_eq!(pong_seen, (0..50).collect::<Vec<usize>>());
    }
}

#[test]
fn rally_of_no_rounds() {
    let (ping_seen, pong_seen) = rally(0, &[true, false]);
    assert!(ping_seen.is_empty());
    assert!(pong_seen.is_empty());
}

#[test]
fn step_of_a_consumer() {
    let q = SharedQueue::new();
    let mut w = Worker::new(Role::Consumer, 2);
    assert_eq!(w.step(&q, &q), (Action::Yield, None));
    assert_eq!(w.round, 0);
    q.push(8);
    q.push(9);
    q.push(10);
    assert_eq!(w.step(&q, &q), (Action::Pop, Some(8)));
    assert_eq!(w.step(&q, &q), (Action::Done, Some(9)));
    assert_eq!(w.step(&q, &q), (Action::Done, None));
    assert_eq!(w.round, 2);
    assert_eq!(q.pop(), Some(10));
}

#[test]
fn steps_of_ping_and_pong() {
    let q1 = SharedQueue::new();
    let q2 = SharedQueue::new();
    let mut ping = Worker::new(Role::Ping, 2);
    let mut pong = Worker::new(Role::Pong, 2);
    assert_eq!(pong.step(&q1, &q2), (Action::Yield, None));
    assert_eq!(ping.step(&q2, &q1), (Action::Pop, None));
    assert_eq!(ping.step(&q2, &q1), (Action::Yield, None));
    assert_eq!(pong.step(&q1, &q2), (Action::Push(0), Some(0)));
    assert_eq!(ping.step(&q2, &q1), (Action::Yield, None));
    assert_eq!(pong.step(&q1, &q2), (Action::Pop, None));
    assert_eq!(pong.step(&q1, &q2), (Action::Yield, None));
    assert_eq!(ping.step(&q2, &q1), (Action::Push(1), Some(0)));
    assert_eq!(ping.step(&q2, &q1), (Action::Pop, None));
    assert_eq!(pong.step(&q1, &q2), (Action::Push(1), Some(1)));
    assert_eq!(pong.step(&q1, &q2), (Action::Done, None));
    assert_eq!(ping.step(&q2, &q1), (Action::Done, Some(1)));
    assert_eq!(ping.step(&q2, &q1), (Action::Done, None));
    assert_eq!(q1.pop(), None);
    assert_eq!(q2.pop(), None);
}

#[test]
fn producer_hands_out_the_numbers_of_its_rounds() {
    let mut w = Worker::new(Role::Producer, 3);
    assert_eq!(w.action(), Action::Push(0));
    assert_eq!(w.pushed(), Action::Push(1));
    assert_eq!(w, Worker { role: Role::Producer, rounds: 3, round: 1, midway: false });
    assert_eq!(w.pushed(), Action::Push(2));
    assert_eq!(w.pushed(), Action::Done);
    assert_eq!(w, Worker { role: Role::Producer, rounds: 3, round: 3, midway: false });
    assert_eq!(w.pushed(), Action::Done);
    assert_eq!(w.round, 3);
}

#[test]
fn producer_ignores_a_pop_report() {
    let mut w = Worker::new(Role::Producer, 2);
    assert_eq!(w.popped(Some(7)), Action::Push(0));
    assert_eq!(w.popped(None), Action::Push(0));
    assert_eq!(w, Worker::new(Role::Producer, 2));
}

#[test]
fn steps_of_a_producer() {
    let q = SharedQueue::new();
    let mut w = Worker::new(Role::Producer, 3);
    assert_eq!(w.step(&q, &q), (Action::Push(1), None));
    assert_eq!(q.len(), 1);
    assert_eq!(w.step(&q, &q), (Action::Push(2), None));
    assert_eq!(w.step(&q, &q), (Action::Done, None));
    assert_eq!(w.step(&q, &q), (Action::Done, None));
    assert_eq!(q.len(), 3);
    assert_eq!(q.pop(), Some(0));
    assert_eq!(q.pop(), Some(1));
    assert_eq!(q.pop(), Some(2));
    assert_eq!(q.pop(), None);
}
