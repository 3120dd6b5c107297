use crate::queue::{EnqueueOutcome, QueueState, RelayQueue};
use vstd::prelude::*;

verus! {

/// One result of reading a frame off a producer connection.
#[derive(Debug, Clone, PartialEq, Eq)]
pub enum ReceiveOutcome<T> {
    /// A well-formed frame, decoded into an item.
    Item(T),
    /// The peer closed the connection.
    EndOfStream,
    /// A frame that could not be decoded, or a transport error other than
    /// the end of the stream.
    Malformed,
}

/// What a connection's receive loop does next.
#[derive(Debug, Clone, Copy, PartialEq, Eq, Structural)]
pub enum LoopControl {
    /// Read the next frame.
    Continue,
    /// Leave the loop and close the connection.
    Stop,
}

/// What the step taken for one receive outcome reports, for logging.
#[derive(Debug, Clone, Copy, PartialEq, Eq, Structural)]
pub enum StepReport {
    /// An item was queued.
    Forwarded,
    /// The queue was full and the item was dropped.
    Dropped,
    /// The queue is closed; the item was dropped.
    QueueClosed,
    /// A frame could not be decoded and was skipped.
    Skipped,
    /// The peer closed the connection: nothing to report as an error.
    Ended,
}

/// The report of the step taken for `ev` on a queue in state `s`.
pub open spec fn step_report<T>(s: QueueState<T>, ev: ReceiveOutcome<T>) -> StepReport {
    match ev {
        ReceiveOutcome::Item(_) => match s.enqueue_outcome() {
            EnqueueOutcome::Enqueued => StepReport::Forwarded,
            EnqueueOutcome::Dropped => StepReport::Dropped,
            EnqueueOutcome::ChannelClosed => StepReport::QueueClosed,
        },
        ReceiveOutcome::EndOfStream => StepReport::Ended,
        ReceiveOutcome::Malformed => StepReport::Skipped,
    }
}

/// Whether the loop goes on after a step with this report: it stops at the
/// end of the stream and when the queue is closed, and only then.
pub open spec fn control_of(r: StepReport) -> LoopControl {
    match r {
        StepReport::Ended | StepReport::QueueClosed => LoopControl::Stop,
        _ => LoopControl::Continue,
    }
}

/// The queue after the step taken for `ev`.
pub open spec fn step_state<T>(s: QueueState<T>, ev: ReceiveOutcome<T>) -> QueueState<T> {
    match ev {
        ReceiveOutcome::Item(x) => s.enqueue(x),
        _ => s,
    }
}

/// A connection's receive loop run over `evs`: the queue it leaves, and
/// whether it stopped before the end of `evs` ran out.
pub open spec fn run<T>(s: QueueState<T>, evs: Seq<ReceiveOutcome<T>>) -> (QueueState<T>, bool)
    decreases evs.len(),
{
    if evs.len() == 0 {
        (s, false)
    } else if control_of(step_report(s, evs[0])) == LoopControl::Stop {
        (step_state(s, evs[0]), true)
    } else {
        run(step_state(s, evs[0]), evs.drop_first())
    }
}

/// Handles one receive outcome of a connection's loop: a decoded item is
/// offered to the queue without waiting, a malformed frame is skipped, and
/// the end of the stream ends the loop.
pub fn receive_step<T>(queue: &mut RelayQueue<T>, ev: ReceiveOutcome<T>) -> (r: (LoopControl, StepReport))
    requires
        old(queue)@.wf(),
    ensures
        r.1 == step_report(old(queue)@, ev),
        r.0 == control_of(r.1),
        final(queue)@ == step_state(old(queue)@, ev),
        final(queue)@.wf(),
{
    let report = match ev {
        ReceiveOutcome::Item(x) => match queue.try_enqueue(x) {
            EnqueueOutcome::Enqueued => StepReport::Forwarded,
            EnqueueOutcome::Dropped => StepReport::Dropped,
            EnqueueOutcome::ChannelClosed => StepReport::QueueClosed,
        },
        ReceiveOutcome::EndOfStream => StepReport::Ended,
        ReceiveOutcome::Malformed => StepReport::Skipped,
    };
    let control = match report {
        StepReport::Ended | StepReport::QueueClosed => LoopControl::Stop,
        _ => LoopControl::Continue,
    };
    (control, report)
}

/// The items carried by a sequence of receive outcomes.
pub open spec fn all_items<T>(evs: Seq<ReceiveOutcome<T>>) -> bool {
    forall|i: int| 0 <= i < evs.len() ==> (#[trigger] evs[i]) is Item
}

/// The item carried by an `Item` outcome.
pub open spec fn item_of<T>(ev: ReceiveOutcome<T>) -> T
    recommends
        ev is Item,
{
    match ev {
        ReceiveOutcome::Item(x) => x,
        _ => arbitrary(),
    }
}

/// Items received on a connection while the queue has room are all queued,
/// after what was already there and in the order they were received, and
/// the loop keeps running.
pub proof fn lemma_items_forwarded_in_order<T>(s: QueueState<T>, evs: Seq<ReceiveOutcome<T>>)
    requires
        s.wf(),
        !s.closed,
        all_items(evs),
        s.items.len() + evs.len() <= s.capacity,
    ensures
        run(s, evs).0.items == s.items + evs.map_values(|e: ReceiveOutcome<T>| item_of(e)),
        !run(s, evs).1,
    decreases evs.len(),
{
    let f = |e: ReceiveOutcome<T>| item_of(e);
    if evs.len() == 0 {
        assert(s.items + evs.map_values(f) =~= s.items);
    } else {
        assert(evs[0] is Item);
        let s1 = step_state(s, evs[0]);
        let rest = evs.drop_first();
        assert forall|i: int| 0 <= i < rest.len() implies (#[trigger] rest[i]) is Item by {
            assert(rest[i] == evs[i + 1]);
        }
        lemma_items_forwarded_in_order(s1, rest);
        assert(s.items.push(item_of(evs[0])) + rest.map_values(f) =~= s.items + evs.map_values(f));
    }
}

/// A malformed frame is skipped: the loop goes on with the next outcome as
/// though the bad frame had never arrived.
pub proof fn lemma_malformed_frame_skipped<T>(s: QueueState<T>, rest: Seq<ReceiveOutcome<T>>)
    ensures
        run(s, seq![ReceiveOutcome::Malformed].add(rest)) == run(s, rest),
{
    let evs = seq![ReceiveOutcome::Malformed].add(rest);
    assert(evs.drop_first() =~= rest);
}

/// The end of one connection's stream stops that connection's loop and
/// leaves the shared queue as it was, so another connection's loop then
/// runs exactly as it would have had the first connection stayed open.
pub proof fn lemma_end_of_stream_is_local<T>(
    s: QueueState<T>,
    rest: Seq<ReceiveOutcome<T>>,
    other: Seq<ReceiveOutcome<T>>,
)
    ensures
        run(s, seq![ReceiveOutcome::EndOfStream].add(rest)) == (s, true),
        run(run(s, seq![ReceiveOutcome::EndOfStream].add(rest)).0, other) == run(s, other),
{
}

} // verus!
