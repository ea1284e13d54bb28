//! What holds of whole runs of completions.
//!
//! A run is the sequence of outcomes, success or failure, of the child
//! operations of one request, in the order in which they complete. The
//! functions here say, for every run at once, when the request is answered
//! and which completions ask for a child to be retired.

use crate::context::Counters;
use crate::types::Disposition;
use crate::types::IoStatus;
use vstd::prelude::*;

verus! {

/// The counters after every completion of `run` has been handled.
pub open spec fn after(c: Counters, run: Seq<bool>) -> Counters
    decreases run.len(),
{
    if run.len() == 0 {
        c
    } else {
        after(c, run.drop_last()).completed(run.last())
    }
}

/// The counters that completion `i` of `run` finds.
pub open spec fn state_at(c: Counters, run: Seq<bool>, i: int) -> Counters {
    after(c, run.take(i))
}

/// The disposition that completion `i` of `run` leads to.
pub open spec fn disposition_at(c: Counters, run: Seq<bool>, i: int) -> Disposition {
    state_at(c, run, i).decided(run[i])
}

/// The counters of a request of which `k` child operations were accepted
/// and none was rejected.
pub open spec fn accepted(k: nat) -> Counters {
    Counters { status: IoStatus::Pending, in_flight: k, num_ok: 0 }
}

/// One more completion: the state after `i + 1` completions is the state
/// after `i` of them, with completion `i` handled.
pub proof fn lemma_state_step(c: Counters, run: Seq<bool>, i: int)
    requires
        0 <= i < run.len(),
    ensures
        state_at(c, run, i + 1) == state_at(c, run, i).completed(run[i]),
{
    assert(run.take(i + 1).drop_last() =~= run.take(i));
    assert(run.take(i + 1).last() == run[i]);
}

/// The state after the whole run is the state after its last completion.
pub proof fn lemma_state_end(c: Counters, run: Seq<bool>)
    ensures
        state_at(c, run, run.len() as int) == after(c, run),
{
    assert(run.take(run.len() as int) =~= run);
}

/// While a pending request has more operations in flight than have
/// completed, it stays pending and every completion counts once.
proof fn lemma_pending(c: Counters, run: Seq<bool>, i: int)
    requires
        c.status == IoStatus::Pending,
        0 <= i <= run.len(),
        i < c.in_flight,
    ensures
        state_at(c, run, i).status == IoStatus::Pending,
        state_at(c, run, i).in_flight == c.in_flight - i,
        c.num_ok <= state_at(c, run, i).num_ok <= c.num_ok + i,
    decreases i,
{
    if i == 0 {
        assert(run.take(0) =~= Seq::<bool>::empty());
    } else {
        lemma_pending(c, run, i - 1);
        lemma_state_step(c, run, i - 1);
    }
}

/// A request that is pending with as many operations in flight as the run
/// is long is answered by the last completion of the run and by no other,
/// and the last completion leaves nothing in flight.
proof fn lemma_pending_answered_last(c: Counters, run: Seq<bool>)
    requires
        c.status == IoStatus::Pending,
        c.in_flight == run.len(),
        run.len() > 0,
    ensures
        forall|i: int| 0 <= i < run.len() - 1 ==> disposition_at(c, run, i).answer().is_none(),
        disposition_at(c, run, run.len() - 1).answer().is_some(),
        after(c, run).in_flight == 0,
{
    assert forall|i: int| 0 <= i < run.len() - 1 implies disposition_at(
        c,
        run,
        i,
    ).answer().is_none() by {
        lemma_pending(c, run, i);
    }
    lemma_pending(c, run, run.len() - 1);
    lemma_state_step(c, run, run.len() - 1);
    lemma_state_end(c, run);
}

/// A run can be handled first completion first: the rest of the run goes
/// on from the counters that the first completion leaves.
proof fn lemma_first(c: Counters, run: Seq<bool>, i: int)
    requires
        1 <= i <= run.len(),
    ensures
        state_at(c, run, i) == state_at(c.completed(run[0]), run.drop_first(), i - 1),
    decreases i,
{
    let rest = run.drop_first();
    if i == 1 {
        assert(rest.take(0) =~= Seq::<bool>::empty());
        lemma_state_step(c, run, 0);
        assert(run.take(0) =~= Seq::<bool>::empty());
    } else {
        lemma_first(c, run, i - 1);
        lemma_state_step(c, run, i - 1);
        lemma_state_step(c.completed(run[0]), rest, i - 2);
    }
}

/// When every accepted child operation succeeds, the request is answered
/// once, with success, by the last completion; no completion before it
/// answers or retires anything.
pub proof fn lemma_all_succeed(run: Seq<bool>)
    requires
        run.len() > 0,
        forall|i: int| 0 <= i < run.len() ==> run[i],
    ensures
        forall|i: int|
            0 <= i < run.len() - 1 ==> disposition_at(accepted(run.len()), run, i)
                == Disposition::Flying(IoStatus::Success),
        disposition_at(accepted(run.len()), run, run.len() - 1) == Disposition::Complete(
            IoStatus::Success,
        ),
        after(accepted(run.len()), run) == (Counters {
            status: IoStatus::Pending,
            in_flight: 0,
            num_ok: run.len(),
        }),
{
    let c = accepted(run.len());
    assert forall|i: int| 0 <= i <= run.len() implies state_at(c, run, i) == (Counters {
        status: IoStatus::Pending,
        in_flight: (run.len() - i) as nat,
        num_ok: i as nat,
    }) by {
        lemma_all_succeed_prefix(run, i);
    }
    lemma_state_end(c, run);
}

proof fn lemma_all_succeed_prefix(run: Seq<bool>, i: int)
    requires
        0 <= i <= run.len(),
        forall|j: int| 0 <= j < run.len() ==> run[j],
    ensures
        state_at(accepted(run.len()), run, i) == (Counters {
            status: IoStatus::Pending,
            in_flight: (run.len() - i) as nat,
            num_ok: i as nat,
        }),
    decreases i,
{
    if i == 0 {
        assert(run.take(0) =~= Seq::<bool>::empty());
    } else {
        lemma_all_succeed_prefix(run, i - 1);
        lemma_state_step(accepted(run.len()), run, i - 1);
    }
}

/// When one of at least two accepted child operations fails and all the
/// others succeed, the completion that failed, and no other, asks for its
/// child to be retired, and the request is answered once, with success, by
/// the last completion.
pub proof fn lemma_one_fails(run: Seq<bool>, failed: int)
    requires
        run.len() >= 2,
        0 <= failed < run.len(),
        forall|i: int| 0 <= i < run.len() ==> run[i] == (i != failed),
    ensures
        forall|i: int|
            0 <= i < run.len() ==> disposition_at(accepted(run.len()), run, i).retires() == (i
                == failed),
        forall|i: int|
            0 <= i < run.len() - 1 ==> disposition_at(
                accepted(run.len()),
                run,
                i,
            ).answer().is_none(),
        disposition_at(accepted(run.len()), run, run.len() - 1).answer() == Some(
            IoStatus::Success,
        ),
        after(accepted(run.len()), run).in_flight == 0,
{
    let c = accepted(run.len());
    assert forall|i: int| 0 <= i < run.len() implies state_at(c, run, i) == (Counters {
        status: IoStatus::Pending,
        in_flight: (run.len() - i) as nat,
        num_ok: if i <= failed {
            i as nat
        } else {
            (i - 1) as nat
        },
    }) by {
        lemma_one_fails_prefix(run, failed, i);
    }
    lemma_state_step(c, run, run.len() - 1);
    lemma_state_end(c, run);
}

proof fn lemma_one_fails_prefix(run: Seq<bool>, failed: int, i: int)
    requires
        0 <= i < run.len(),
        0 <= failed < run.len(),
        forall|j: int| 0 <= j < run.len() ==> run[j] == (j != failed),
    ensures
        state_at(accepted(run.len()), run, i) == (Counters {
            status: IoStatus::Pending,
            in_flight: (run.len() - i) as nat,
            num_ok: if i <= failed {
                i as nat
            } else {
                (i - 1) as nat
            },
        }),
    decreases i,
{
    if i == 0 {
        assert(run.take(0) =~= Seq::<bool>::empty());
    } else {
        lemma_one_fails_prefix(run, failed, i - 1);
        lemma_state_step(accepted(run.len()), run, i - 1);
    }
}

/// When every accepted child operation fails, the request is answered
/// once, with failure, by the last completion. Every completion before the
/// last asks for its child to be retired; the last does not.
pub proof fn lemma_all_fail(run: Seq<bool>)
    requires
        run.len() > 0,
        forall|i: int| 0 <= i < run.len() ==> !run[i],
    ensures
        forall|i: int|
            0 <= i < run.len() - 1 ==> disposition_at(accepted(run.len()), run, i)
                == Disposition::Retire(IoStatus::Pending),
        disposition_at(accepted(run.len()), run, run.len() - 1) == Disposition::Complete(
            IoStatus::Failed,
        ),
        after(accepted(run.len()), run).in_flight == 0,
{
    let c = accepted(run.len());
    assert forall|i: int| 0 <= i < run.len() implies state_at(c, run, i) == (Counters {
        status: IoStatus::Pending,
        in_flight: (run.len() - i) as nat,
        num_ok: 0,
    }) by {
        lemma_all_fail_prefix(run, i);
    }
    lemma_state_step(c, run, run.len() - 1);
    lemma_state_end(c, run);
}

proof fn lemma_all_fail_prefix(run: Seq<bool>, i: int)
    requires
        0 <= i < run.len(),
        forall|j: int| 0 <= j < run.len() ==> !run[j],
    ensures
        state_at(accepted(run.len()), run, i) == (Counters {
            status: IoStatus::Pending,
            in_flight: (run.len() - i) as nat,
            num_ok: 0,
        }),
    decreases i,
{
    if i == 0 {
        assert(run.take(0) =~= Seq::<bool>::empty());
    } else {
        lemma_all_fail_prefix(run, i - 1);
        lemma_state_step(accepted(run.len()), run, i - 1);
    }
}

/// Whether the first completion of `run` finds the counters `c` in the one
/// combination that the decision table has no row for: a success while the
/// request is out of memory and more operations are in flight.
pub open spec fn strays(c: Counters, run: Seq<bool>) -> bool {
    c.status == IoStatus::NoMemory && run.len() >= 2 && run[0]
}

/// A request whose operations in flight all complete is answered by the
/// last completion and by no other, and the last completion leaves nothing
/// in flight. This holds of every status that a dispatch leaves behind and
/// of every run, but for the runs that stray.
pub proof fn lemma_answered_once(c: Counters, run: Seq<bool>)
    requires
        c.status != IoStatus::Success,
        c.in_flight == run.len(),
        run.len() > 0,
        !strays(c, run),
    ensures
        forall|i: int| 0 <= i < run.len() - 1 ==> disposition_at(c, run, i).answer().is_none(),
        disposition_at(c, run, run.len() - 1).answer().is_some(),
        after(c, run).in_flight == 0,
{
    if c.status == IoStatus::Pending {
        lemma_pending_answered_last(c, run);
    } else {
        let first = c.completed(run[0]);
        let rest = run.drop_first();
        assert(run.take(0) =~= Seq::<bool>::empty());
        assert(state_at(c, run, 0) == c);
        lemma_state_end(c, run);
        if run.len() == 1 {
            lemma_state_step(c, run, 0);
        } else {
            assert(first.status == IoStatus::Pending);
            lemma_pending_answered_last(first, rest);
            lemma_state_end(first, rest);
            lemma_first(c, run, run.len() as int);
            assert forall|i: int| 0 <= i < run.len() - 1 implies disposition_at(
                c,
                run,
                i,
            ).answer().is_none() by {
                if i > 0 {
                    lemma_first(c, run, i);
                    assert(rest[i - 1] == run[i]);
                    assert(disposition_at(first, rest, i - 1).answer().is_none());
                }
            }
            lemma_first(c, run, run.len() - 1);
            assert(rest[run.len() - 2] == run[run.len() - 1]);
        }
    }
}

/// A run that strays is answered more than once: by its first completion,
/// with failure and with operations still in flight, and again by its
/// last.
pub proof fn lemma_stray_answered_early(c: Counters, run: Seq<bool>)
    requires
        c.in_flight == run.len(),
        strays(c, run),
    ensures
        disposition_at(c, run, 0) == Disposition::Inconsistent,
        disposition_at(c, run, 0).answer() == Some(IoStatus::Failed),
        disposition_at(c, run, run.len() - 1).answer().is_some(),
{
    assert(run.take(0) =~= Seq::<bool>::empty());
    assert(state_at(c, run, 0) == c);
    lemma_last_answers(c, run, run.len() - 1);
}

/// Whatever came before, the completion that leaves nothing in flight
/// answers the request.
proof fn lemma_last_answers(c: Counters, run: Seq<bool>, i: int)
    requires
        0 <= i < run.len(),
        c.in_flight == i + 1,
    ensures
        disposition_at(c, run, i).answer().is_some(),
{
    lemma_in_flight(c, run, i);
}

/// Every completion takes one operation out of flight.
proof fn lemma_in_flight(c: Counters, run: Seq<bool>, i: int)
    requires
        0 <= i <= run.len(),
        i <= c.in_flight,
    ensures
        state_at(c, run, i).in_flight == c.in_flight - i,
    decreases i,
{
    if i == 0 {
        assert(run.take(0) =~= Seq::<bool>::empty());
    } else {
        lemma_in_flight(c, run, i - 1);
        lemma_state_step(c, run, i - 1);
    }
}

} // verus!
