use vstd::prelude::*;

use crate::upload_queue::{after_add, after_take, batch_taken, contents, pending_len};

verus! {

/// One mutation of the buffer, as producers and the drain cycle make them
/// one at a time under the buffer's lock.
pub ghost enum QueueEvent<T> {
    /// A producer appended these items.
    Enqueue(Seq<T>),
    /// The drain cycle took at most this many items.
    Drain(nat),
}

/// The buffer after `events`, applied in order to `q`.
pub open spec fn replay<T>(q: Option<Seq<T>>, events: Seq<QueueEvent<T>>) -> Option<Seq<T>>
    decreases events.len(),
{
    if events.len() == 0 {
        q
    } else {
        let prev = replay(q, events.drop_last());
        match events.last() {
            QueueEvent::Enqueue(items) => after_add(prev, items),
            QueueEvent::Drain(max) => after_take(prev, max),
        }
    }
}

/// Every item that `events` enqueued, in order.
pub open spec fn enqueued_items<T>(events: Seq<QueueEvent<T>>) -> Seq<T>
    decreases events.len(),
{
    if events.len() == 0 {
        Seq::empty()
    } else {
        let prev = enqueued_items(events.drop_last());
        match events.last() {
            QueueEvent::Enqueue(items) => prev + items,
            QueueEvent::Drain(_) => prev,
        }
    }
}

/// Every item that the drains among `events` took out of `q`, batch after batch.
pub open spec fn drained_items<T>(q: Option<Seq<T>>, events: Seq<QueueEvent<T>>) -> Seq<T>
    decreases events.len(),
{
    if events.len() == 0 {
        Seq::empty()
    } else {
        let prev = drained_items(q, events.drop_last());
        match events.last() {
            QueueEvent::Enqueue(_) => prev,
            QueueEvent::Drain(max) => prev + contents(
                batch_taken(replay(q, events.drop_last()), max),
            ),
        }
    }
}

/// How many items `events` enqueued.
pub open spec fn enqueued_count<T>(events: Seq<QueueEvent<T>>) -> nat
    decreases events.len(),
{
    if events.len() == 0 {
        0
    } else {
        let prev = enqueued_count(events.drop_last());
        match events.last() {
            QueueEvent::Enqueue(items) => prev + items.len(),
            QueueEvent::Drain(_) => prev,
        }
    }
}

/// How many items the drains among `events` took out of `q`.
pub open spec fn drained_count<T>(q: Option<Seq<T>>, events: Seq<QueueEvent<T>>) -> nat
    decreases events.len(),
{
    if events.len() == 0 {
        0
    } else {
        let prev = drained_count(q, events.drop_last());
        match events.last() {
            QueueEvent::Enqueue(_) => prev,
            QueueEvent::Drain(max) => prev + contents(
                batch_taken(replay(q, events.drop_last()), max),
            ).len(),
        }
    }
}

/// Taking a batch splits the buffer: the batch followed by what is left is
/// what was pending.
pub proof fn lemma_take_splits<T>(q: Option<Seq<T>>, max: nat)
    ensures
        contents(batch_taken(q, max)) + contents(after_take(q, max)) == contents(q),
{
    match q {
        None => {
            assert(Seq::<T>::empty() + Seq::<T>::empty() =~= Seq::<T>::empty());
        },
        Some(s) => {
            if s.len() > max {
                assert(s.take(max as int) + s.skip(max as int) =~= s);
            } else {
                assert(s + Seq::<T>::empty() =~= s);
            }
        },
    }
}

/// No item is lost or duplicated, in whatever order producers and the drain
/// cycle take turns: the batches drained so far, followed by what is still
/// pending, are exactly what was pending at the start followed by everything
/// enqueued since, in order.
pub proof fn lemma_items_conserved<T>(q: Option<Seq<T>>, events: Seq<QueueEvent<T>>)
    ensures
        drained_items(q, events) + contents(replay(q, events)) == contents(q) + enqueued_items(
            events,
        ),
    decreases events.len(),
{
    if events.len() > 0 {
        let rest = events.drop_last();
        lemma_items_conserved(q, rest);
        let prev = replay(q, rest);
        match events.last() {
            QueueEvent::Enqueue(items) => {
                assert(drained_items(q, rest) + (contents(prev) + items) =~= (drained_items(q, rest)
                    + contents(prev)) + items);
                assert(contents(q) + (enqueued_items(rest) + items) =~= (contents(q)
                    + enqueued_items(rest)) + items);
            },
            QueueEvent::Drain(max) => {
                lemma_take_splits(prev, max);
                let b = contents(batch_taken(prev, max));
                let left = contents(after_take(prev, max));
                assert((drained_items(q, rest) + b) + left =~= drained_items(q, rest) + (b
                    + left));
            },
        }
    } else {
        assert(Seq::<T>::empty() + contents(q) =~= contents(q) + Seq::<T>::empty());
    }
}

/// The counts agree with the items they count.
pub proof fn lemma_counts_match_items<T>(q: Option<Seq<T>>, events: Seq<QueueEvent<T>>)
    ensures
        enqueued_count(events) == enqueued_items(events).len(),
        drained_count(q, events) == drained_items(q, events).len(),
    decreases events.len(),
{
    if events.len() > 0 {
        lemma_counts_match_items(q, events.drop_last());
    }
}

/// The pending count after any interleaving of enqueues and drains equals
/// the count at the start plus every item enqueued, minus every item drained.
pub proof fn lemma_count_conserved<T>(q: Option<Seq<T>>, events: Seq<QueueEvent<T>>)
    ensures
        pending_len(replay(q, events)) == pending_len(q) + enqueued_count(events) - drained_count(
            q,
            events,
        ),
        drained_count(q, events) <= pending_len(q) + enqueued_count(events),
{
    lemma_items_conserved(q, events);
    lemma_counts_match_items(q, events);
    let d = drained_items(q, events);
    let left = contents(replay(q, events));
    let e = enqueued_items(events);
    assert((d + left).len() == d.len() + left.len());
    assert((contents(q) + e).len() == contents(q).len() + e.len());
}

/// From an untouched buffer, the pending count is always the number of items
/// enqueued so far minus the number drained so far.
pub proof fn lemma_pending_count_from_start<T>(events: Seq<QueueEvent<T>>)
    ensures
        pending_len(replay(None, events)) == enqueued_count(events) - drained_count(None, events),
{
    lemma_count_conserved(None, events);
}

} // verus!
