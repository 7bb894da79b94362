//! The pipeline as a whole: runs of submissions and flushes, and what holds of
//! every run.
//!
//! The ingester's functions state what one call does. The statements here
//! follow a buffer through many calls. Each call is a step that a program
//! takes under the buffer's lock, so a run lists the steps in the order in
//! which they took the lock: an event that is submitted while a batch is on its
//! way is a `Submit` that follows the `Flush` which took that batch.

use crate::ingest_job::{batch_on_tick, buffer_after_tick};
use crate::ingester::{batch_on_flush, buffer_after_submit, dispatch_on_submit};
use crate::options::LoggerIngestPolicy;
use std::time::Duration;
use vstd::prelude::*;

verus! {

/// One step of a run.
pub enum Step<E> {
    /// An event is submitted.
    Submit(E),
    /// The buffer is flushed.
    Flush,
}

/// Where a run stands: what the buffer holds, and the batches that were handed
/// out for delivery so far, in the order in which they left.
pub struct Run<E> {
    pub pending: Seq<E>,
    pub batches: Seq<Seq<E>>,
}

/// The start of a run: an empty buffer, and no batch handed out.
pub open spec fn start<E>() -> Run<E> {
    Run { pending: Seq::empty(), batches: Seq::empty() }
}

/// `batches`, and behind them `batch` where there is one.
pub open spec fn with_batch<E>(batches: Seq<Seq<E>>, batch: Option<Seq<E>>) -> Seq<Seq<E>> {
    match batch {
        Some(events) => batches.push(events),
        None => batches,
    }
}

/// Where one more step leads.
pub open spec fn step<E>(policy: LoggerIngestPolicy, before: Run<E>, next: Step<E>) -> Run<E> {
    match next {
        Step::Submit(event) => Run {
            pending: buffer_after_submit(policy, before.pending, event),
            batches: with_batch(before.batches, dispatch_on_submit(policy, event)),
        },
        Step::Flush => Run {
            pending: Seq::empty(),
            batches: with_batch(before.batches, batch_on_flush(before.pending)),
        },
    }
}

/// Where `steps` lead from `before`.
pub open spec fn run<E>(policy: LoggerIngestPolicy, before: Run<E>, steps: Seq<Step<E>>) -> Run<E>
    decreases steps.len(),
{
    if steps.len() == 0 {
        before
    } else {
        step(policy, run(policy, before, steps.drop_last()), steps.last())
    }
}

/// The events that `steps` submit, in order.
pub open spec fn submitted<E>(steps: Seq<Step<E>>) -> Seq<E>
    decreases steps.len(),
{
    if steps.len() == 0 {
        Seq::empty()
    } else {
        match steps.last() {
            Step::Submit(event) => submitted(steps.drop_last()).push(event),
            Step::Flush => submitted(steps.drop_last()),
        }
    }
}

/// The steps that submit each of `events` in turn, and do nothing else.
pub open spec fn submissions<E>(events: Seq<E>) -> Seq<Step<E>> {
    events.map_values(|event: E| Step::Submit(event))
}

/// Whether a run can stand at `at` under `policy`: under the immediate policy
/// the buffer is empty.
pub open spec fn fits<E>(policy: LoggerIngestPolicy, at: Run<E>) -> bool {
    policy is Immediately ==> at.pending.len() == 0
}

/// A submission under the immediate policy leaves the buffer as it is and
/// hands out the event at once, in a batch of its own; a submission under the
/// periodic policy appends the event to the buffer and hands out nothing.
pub proof fn lemma_policies_are_isolated<E>(policy: LoggerIngestPolicy, before: Run<E>, event: E)
    ensures
        policy is Immediately ==> step(policy, before, Step::Submit(event)) == (Run {
            pending: before.pending,
            batches: before.batches.push(seq![event]),
        }),
        policy is Periodically ==> step(policy, before, Step::Submit(event)) == (Run {
            pending: before.pending.push(event),
            batches: before.batches,
        }),
{
}

/// Under the immediate policy the buffer is empty after every run that starts
/// with an empty buffer.
pub proof fn lemma_immediate_policy_never_buffers<E>(before: Run<E>, steps: Seq<Step<E>>)
    requires
        before.pending.len() == 0,
    ensures
        run(LoggerIngestPolicy::Immediately, before, steps).pending.len() == 0,
    decreases steps.len(),
{
    if steps.len() > 0 {
        lemma_immediate_policy_never_buffers(before, steps.drop_last());
    }
}

/// A flush of an empty buffer hands out nothing, and only such a flush does:
/// every other flush hands out one batch, which is not empty.
pub proof fn lemma_empty_flush_sends_nothing<E>(policy: LoggerIngestPolicy, before: Run<E>)
    ensures
        before.pending.len() == 0 ==> step(policy, before, Step::Flush) == before,
        before.pending.len() > 0 ==> step(policy, before, Step::Flush) == (Run {
            pending: Seq::empty(),
            batches: before.batches.push(before.pending),
        }),
{
    if before.pending.len() == 0 {
        assert(before.pending =~= Seq::<E>::empty());
    }
}

/// A tick of the flush job is a flush, unless a batch is still on its way
/// (`in_flight`): such a tick is skipped, and is no step at all.
pub proof fn lemma_tick_is_a_flush_or_nothing<E>(
    policy: LoggerIngestPolicy,
    in_flight: Option<usize>,
    before: Run<E>,
)
    ensures
        (Run {
            pending: buffer_after_tick(in_flight, before.pending),
            batches: with_batch(before.batches, batch_on_tick(in_flight, before.pending)),
        }) == if in_flight is Some {
            before
        } else {
            step(policy, before, Step::Flush)
        },
{
}

/// Under the periodic policy, submissions with no flush between them only
/// append: the buffer then holds what it held before, followed by the
/// submitted events in submission order, and no batch has left meanwhile.
pub proof fn lemma_periodic_submissions_append<E>(
    interval: Duration,
    before: Run<E>,
    events: Seq<E>,
)
    ensures
        run(LoggerIngestPolicy::Periodically(interval), before, submissions(events)) == (Run {
            pending: before.pending + events,
            batches: before.batches,
        }),
    decreases events.len(),
{
    if events.len() == 0 {
        assert(before.pending + events =~= before.pending);
    } else {
        lemma_periodic_submissions_append(interval, before, events.drop_last());
        assert(submissions(events).drop_last() =~= submissions(events.drop_last()));
        assert(before.pending + events =~= (before.pending + events.drop_last()).push(
            events.last(),
        ));
    }
}

/// Under the periodic policy, the batch of a flush that follows any number of
/// submissions to an empty buffer, with no flush between them, holds exactly
/// the submitted events, in submission order. Where nothing was submitted, no
/// batch leaves.
pub proof fn lemma_batch_keeps_submission_order<E>(
    interval: Duration,
    before: Run<E>,
    events: Seq<E>,
)
    requires
        before.pending.len() == 0,
    ensures
        run(
            LoggerIngestPolicy::Periodically(interval),
            before,
            submissions(events).push(Step::Flush),
        ) == (Run {
            pending: Seq::empty(),
            batches: if events.len() == 0 {
                before.batches
            } else {
                before.batches.push(events)
            },
        }),
{
    let steps = submissions(events).push(Step::Flush);
    lemma_periodic_submissions_append(interval, before, events);
    assert(steps.drop_last() =~= submissions(events));
    assert(before.pending + events =~= events);
}

/// Events that are submitted after a flush wait for the next one. The batch
/// that the first flush took holds what the buffer held at that moment and
/// none of the later events; the buffer then holds the later events, all of
/// them and in submission order; and the next flush takes exactly those.
pub proof fn lemma_later_events_wait_for_next_flush<E>(
    interval: Duration,
    before: Run<E>,
    later: Seq<E>,
)
    ensures
        ({
            let policy = LoggerIngestPolicy::Periodically(interval);
            let drained = step(policy, before, Step::Flush);
            let refilled = run(policy, drained, submissions(later));
            let next = step(policy, refilled, Step::Flush);
            &&& drained.pending == Seq::<E>::empty()
            &&& drained.batches == with_batch(before.batches, batch_on_flush(before.pending))
            &&& refilled.pending == later
            &&& refilled.batches == drained.batches
            &&& next.pending == Seq::<E>::empty()
            &&& next.batches == with_batch(drained.batches, batch_on_flush(later))
        }),
{
    let drained = step(LoggerIngestPolicy::Periodically(interval), before, Step::Flush);
    lemma_periodic_submissions_append(interval, drained, later);
    assert(drained.pending + later =~= later);
}

/// No event is lost in the buffer and none leaves it twice. Whatever the
/// steps, the batches that were handed out, one after the other, followed by
/// what the buffer still holds, are the events that had left or were buffered
/// before, followed by the submitted events: each once, in submission order.
/// An event that has left in one batch is therefore in no later batch.
pub proof fn lemma_every_event_leaves_once<E>(
    policy: LoggerIngestPolicy,
    before: Run<E>,
    steps: Seq<Step<E>>,
)
    requires
        fits(policy, before),
    ensures
        fits(policy, run(policy, before, steps)),
        run(policy, before, steps).batches.flatten() + run(policy, before, steps).pending
            == before.batches.flatten() + before.pending + submitted(steps),
    decreases steps.len(),
{
    let end = run(policy, before, steps);
    let known = before.batches.flatten() + before.pending;
    if steps.len() == 0 {
        assert(known + submitted(steps) =~= known);
    } else {
        let earlier = run(policy, before, steps.drop_last());
        lemma_every_event_leaves_once(policy, before, steps.drop_last());
        let all = known + submitted(steps.drop_last());
        match steps.last() {
            Step::Submit(event) => {
                if policy is Immediately {
                    // The event leaves at once, and the buffer behind it is empty.
                    earlier.batches.lemma_flatten_push(seq![event]);
                }
                assert(end.batches.flatten() + end.pending =~= all.push(event));
                assert(known + submitted(steps) =~= all.push(event));
            },
            Step::Flush => {
                if earlier.pending.len() > 0 {
                    earlier.batches.lemma_flatten_push(earlier.pending);
                }
                assert(end.batches.flatten() + end.pending =~= all);
            },
        }
    }
}

/// No batch is empty: where every batch that had left before the run holds an
/// event, so does every batch that has left after it.
pub proof fn lemma_no_batch_is_empty<E>(
    policy: LoggerIngestPolicy,
    before: Run<E>,
    steps: Seq<Step<E>>,
)
    requires
        forall|i: int| 0 <= i < before.batches.len() ==> (#[trigger] before.batches[i]).len() > 0,
    ensures
        forall|i: int|
            0 <= i < run(policy, before, steps).batches.len() ==> (#[trigger] run(
                policy,
                before,
                steps,
            ).batches[i]).len() > 0,
    decreases steps.len(),
{
    if steps.len() > 0 {
        lemma_no_batch_is_empty(policy, before, steps.drop_last());
        let earlier = run(policy, before, steps.drop_last());
        let end = run(policy, before, steps);
        assert forall|i: int| 0 <= i < end.batches.len() implies (#[trigger] end.batches[i]).len()
            > 0 by {
            if i < earlier.batches.len() {
                assert(end.batches[i] == earlier.batches[i]);
            }
        }
    }
}

} // verus!
