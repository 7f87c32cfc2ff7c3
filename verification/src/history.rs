//! Histories: what a sequence of pushes and pops does to a queue.
//!
//! Every push and every pop takes effect at one instant, also when several
//! threads work on a shared queue. Put in the order of those instants, the
//! operations of all threads form one history. The laws below hold of every
//! history, and so of every run, whatever the number of producers and
//! consumers and however their operations interleave.

use crate::queue::{head_of, rest_of};
use vstd::prelude::*;

verus! {

/// One operation on a queue.
pub enum Op {
    /// Put the value behind all that wait.
    Push(usize),
    /// Take the oldest value out, if there is one.
    Pop,
}

/// What waits after `op` on a queue that held `waiting`.
pub open spec fn apply(waiting: Seq<usize>, op: Op) -> Seq<usize> {
    match op {
        Op::Push(value) => waiting.push(value),
        Op::Pop => rest_of(waiting),
    }
}

/// What `op` returns on a queue that holds `waiting`.
pub open spec fn answer(waiting: Seq<usize>, op: Op) -> Option<usize> {
    match op {
        Op::Push(_) => None,
        Op::Pop => head_of(waiting),
    }
}

/// What waits after the history `ops` on a queue that held `waiting`.
pub open spec fn run(waiting: Seq<usize>, ops: Seq<Op>) -> Seq<usize>
    decreases ops.len(),
{
    if ops.len() == 0 {
        waiting
    } else {
        apply(run(waiting, ops.drop_last()), ops.last())
    }
}

/// The values that the pops of `ops` return, in the order of the pops. A pop
/// that finds the queue empty returns none.
pub open spec fn delivered(waiting: Seq<usize>, ops: Seq<Op>) -> Seq<usize>
    decreases ops.len(),
{
    if ops.len() == 0 {
        Seq::empty()
    } else {
        let earlier = delivered(waiting, ops.drop_last());
        match answer(run(waiting, ops.drop_last()), ops.last()) {
            Some(value) => earlier.push(value),
            None => earlier,
        }
    }
}

/// The values that `ops` pushes, in the order of the pushes.
pub open spec fn pushed(ops: Seq<Op>) -> Seq<usize>
    decreases ops.len(),
{
    if ops.len() == 0 {
        Seq::empty()
    } else {
        match ops.last() {
            Op::Push(value) => pushed(ops.drop_last()).push(value),
            Op::Pop => pushed(ops.drop_last()),
        }
    }
}

/// Conservation: what waited at first, followed by what was pushed, is what
/// was delivered followed by what still waits. No value is lost, none is
/// made up, and the order is kept.
pub proof fn law_conservation(waiting: Seq<usize>, ops: Seq<Op>)
    ensures
        waiting + pushed(ops) == delivered(waiting, ops) + run(waiting, ops),
    decreases ops.len(),
{
    if ops.len() > 0 {
        law_conservation(waiting, ops.drop_last());
        let before = run(waiting, ops.drop_last());
        let earlier = delivered(waiting, ops.drop_last());
        match ops.last() {
            Op::Push(value) => {
                assert(waiting + pushed(ops.drop_last()).push(value) =~= (waiting + pushed(
                    ops.drop_last(),
                )).push(value));
                assert(earlier + before.push(value) =~= (earlier + before).push(value));
            },
            Op::Pop => {
                if before.len() > 0 {
                    assert(earlier.push(before[0]) + before.skip(1) =~= earlier + before);
                }
            },
        }
    } else {
        assert(waiting + Seq::<usize>::empty() =~= Seq::<usize>::empty() + waiting);
    }
}

/// First in, first out: on a queue that starts empty, the pops of any
/// history return the pushed values in the order of the pushes, each pushed
/// value at most once, and what still waits is the rest of them.
pub proof fn law_fifo(ops: Seq<Op>)
    ensures
        delivered(Seq::empty(), ops).len() <= pushed(ops).len(),
        delivered(Seq::empty(), ops) == pushed(ops).take(
            delivered(Seq::empty(), ops).len() as int,
        ),
        run(Seq::empty(), ops) == pushed(ops).skip(delivered(Seq::empty(), ops).len() as int),
{
    let out = delivered(Seq::empty(), ops);
    let left = run(Seq::empty(), ops);
    law_conservation(Seq::empty(), ops);
    assert(Seq::<usize>::empty() + pushed(ops) =~= pushed(ops));
    assert(pushed(ops).take(out.len() as int) =~= out);
    assert(pushed(ops).skip(out.len() as int) =~= left);
}

/// The two cursors of a queue that started empty: the tail has moved on by
/// one with every push, the head by one with every pop that returned a
/// value. The head never passes the tail, what waits is what lies between
/// them, and the queue is empty where they meet.
pub proof fn law_cursors(ops: Seq<Op>)
    ensures
        delivered(Seq::empty(), ops).len() <= pushed(ops).len(),
        run(Seq::empty(), ops).len() == pushed(ops).len() - delivered(Seq::empty(), ops).len(),
        run(Seq::empty(), ops).len() == 0 <==> delivered(Seq::empty(), ops).len() == pushed(
            ops,
        ).len(),
{
    law_fifo(ops);
}

/// No loss: as multisets, what was pushed is what was delivered together
/// with what still waits. Once the queue has been drained, the pops have
/// returned every pushed value, each as often as it was pushed.
pub proof fn law_no_loss(ops: Seq<Op>)
    ensures
        pushed(ops).to_multiset() == delivered(Seq::empty(), ops).to_multiset().add(
            run(Seq::empty(), ops).to_multiset(),
        ),
        run(Seq::empty(), ops).len() == 0 ==> delivered(Seq::empty(), ops) == pushed(ops),
{
    let out = delivered(Seq::empty(), ops);
    let left = run(Seq::empty(), ops);
    law_conservation(Seq::empty(), ops);
    assert(Seq::<usize>::empty() + pushed(ops) =~= pushed(ops));
    vstd::seq_lib::lemma_multiset_commutative(out, left);
    if left.len() == 0 {
        assert(out + left =~= out);
    }
}

/// No double delivery: where every pushed value is pushed once only, no
/// value is delivered twice, and none that was delivered still waits.
pub proof fn law_single_delivery(ops: Seq<Op>)
    requires
        pushed(ops).no_duplicates(),
    ensures
        delivered(Seq::empty(), ops).no_duplicates(),
        forall|value: usize|
            delivered(Seq::empty(), ops).contains(value) ==> !run(Seq::empty(), ops).contains(
                value,
            ),
{
    let all = pushed(ops);
    let out = delivered(Seq::empty(), ops);
    let left = run(Seq::empty(), ops);
    law_fifo(ops);
    assert forall|i: int, j: int| 0 <= i < out.len() && 0 <= j < out.len() && i != j implies out[i]
        != out[j] by {
        assert(out[i] == all[i] && out[j] == all[j]);
    }
    assert forall|value: usize| out.contains(value) implies !left.contains(value) by {
        let i = choose|i: int| 0 <= i < out.len() && out[i] == value;
        assert(out[i] == all[i]);
        if left.contains(value) {
            let j = choose|j: int| 0 <= j < left.len() && left[j] == value;
            assert(left[j] == all[out.len() + j]);
        }
    }
}

/// The history that pushes `values` one after the other.
pub open spec fn pushes(values: Seq<usize>) -> Seq<Op> {
    Seq::new(values.len(), |i: int| Op::Push(values[i]))
}

/// The history of `count` pops.
pub open spec fn pops(count: nat) -> Seq<Op> {
    Seq::new(count, |i: int| Op::Pop)
}

/// One history after another: the second runs on what the first has left,
/// and the deliveries and the pushes of the two follow each other.
pub proof fn law_histories_compose(waiting: Seq<usize>, first: Seq<Op>, second: Seq<Op>)
    ensures
        run(waiting, first + second) == run(run(waiting, first), second),
        delivered(waiting, first + second) == delivered(waiting, first) + delivered(
            run(waiting, first),
            second,
        ),
        pushed(first + second) == pushed(first) + pushed(second),
    decreases second.len(),
{
    if second.len() == 0 {
        assert(first + second =~= first);
        assert(delivered(waiting, first) + Seq::<usize>::empty() =~= delivered(waiting, first));
        assert(pushed(first) + Seq::<usize>::empty() =~= pushed(first));
    } else {
        let whole = first + second;
        assert(whole.drop_last() =~= first + second.drop_last());
        assert(whole.last() == second.last());
        law_histories_compose(waiting, first, second.drop_last());
        let middle = run(waiting, first);
        let before = run(middle, second.drop_last());
        assert(run(waiting, whole.drop_last()) == before);
        match answer(before, second.last()) {
            Some(value) => {
                assert(delivered(waiting, first) + delivered(middle, second.drop_last()).push(
                    value,
                ) =~= (delivered(waiting, first) + delivered(middle, second.drop_last())).push(
                    value,
                ));
            },
            None => {},
        }
        match second.last() {
            Op::Push(value) => {
                assert(pushed(first) + pushed(second.drop_last()).push(value) =~= (pushed(first)
                    + pushed(second.drop_last())).push(value));
            },
            Op::Pop => {},
        }
    }
}

/// Pushes only: the values go behind what waits, and nothing is delivered.
pub proof fn law_pushes(waiting: Seq<usize>, values: Seq<usize>)
    ensures
        run(waiting, pushes(values)) == waiting + values,
        delivered(waiting, pushes(values)) == Seq::<usize>::empty(),
        pushed(pushes(values)) == values,
    decreases values.len(),
{
    if values.len() == 0 {
        assert(waiting + values =~= waiting);
        assert(values =~= Seq::<usize>::empty());
    } else {
        assert(pushes(values).drop_last() =~= pushes(values.drop_last()));
        assert(pushes(values).last() == Op::Push(values.last()));
        law_pushes(waiting, values.drop_last());
        assert((waiting + values.drop_last()).push(values.last()) =~= waiting + values);
        assert(values.drop_last().push(values.last()) =~= values);
    }
}

/// Pops only: `count` pops deliver the `count` oldest waiting values, oldest
/// first, or all of them where fewer wait, and leave the others.
pub proof fn law_pops(waiting: Seq<usize>, count: nat)
    ensures
        count <= waiting.len() ==> delivered(waiting, pops(count)) == waiting.take(count as int)
            && run(waiting, pops(count)) == waiting.skip(count as int),
        count > waiting.len() ==> delivered(waiting, pops(count)) == waiting && run(
            waiting,
            pops(count),
        ) == Seq::<usize>::empty(),
        pushed(pops(count)) == Seq::<usize>::empty(),
    decreases count,
{
    if count == 0 {
        assert(waiting.take(0) =~= Seq::<usize>::empty());
        assert(waiting.skip(0) =~= waiting);
    } else {
        let fewer = (count - 1) as nat;
        assert(pops(count).drop_last() =~= pops(fewer));
        assert(pops(count).last() == Op::Pop);
        law_pops(waiting, fewer);
        if count <= waiting.len() {
            assert(waiting.skip(fewer as int).skip(1) =~= waiting.skip(count as int));
            assert(waiting.take(fewer as int).push(waiting[fewer as int]) =~= waiting.take(
                count as int,
            ));
        } else if fewer == waiting.len() {
            assert(waiting.skip(fewer as int) =~= Seq::<usize>::empty());
            assert(waiting.take(fewer as int) =~= waiting);
        }
    }
}

/// Pushing `values` into an empty queue and then popping as often returns
/// `values` in the order in which they were pushed and leaves the queue
/// empty.
pub proof fn law_fill_then_drain(values: Seq<usize>)
    ensures
        delivered(Seq::empty(), pushes(values) + pops(values.len())) == values,
        run(Seq::empty(), pushes(values) + pops(values.len())) == Seq::<usize>::empty(),
{
    law_pushes(Seq::empty(), values);
    law_pops(values, values.len());
    law_histories_compose(Seq::empty(), pushes(values), pops(values.len()));
    assert(Seq::<usize>::empty() + values =~= values);
    assert(values.take(values.len() as int) =~= values);
    assert(values.skip(values.len() as int) =~= Seq::<usize>::empty());
}

} // verus!
