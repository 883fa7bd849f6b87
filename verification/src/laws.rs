//! What holds of every fan-out and of every removal, stated over the
//! registry's mathematical value and proved from the contracts' own terms.

use vstd::prelude::*;
use vstd::set_lib::{lemma_len_subset, lemma_set_disjoint_lens};
use crate::message::MessageView;
use crate::pump::{pump_command, pump_next, Pump, PumpCommand, PumpEvent, PumpState};
use crate::registry::{offered, relayed, Outboxes, Registry};

verus! {

/// The connections that a fan-out from `sender` addresses: every registered
/// one but the sender.
pub open spec fn recipients(before: Outboxes, sender: usize) -> Set<usize> {
    before.dom().remove(sender)
}

/// A connection never gets its own frame back: a fan-out leaves its
/// sender registered, with its queue as it was.
pub proof fn law_sender_is_passed_over(
    before: Outboxes,
    after: Outboxes,
    sender: usize,
    message: MessageView,
)
    requires
        relayed(before, after, sender, message),
        before.contains_key(sender),
    ensures
        !recipients(before, sender).contains(sender),
        after.contains_key(sender),
        after[sender] == before[sender],
{
}

/// Of N registered connections, a fan-out from one of them addresses the
/// N - 1 others and nobody else. Each of them either has the frame as the
/// newest of its queue or is no longer registered, and those two groups
/// together are the N - 1. A connection that is registered afterwards was
/// registered before.
pub proof fn law_all_others_are_addressed(
    before: Outboxes,
    after: Outboxes,
    sender: usize,
    message: MessageView,
)
    requires
        before.dom().finite(),
        before.contains_key(sender),
        relayed(before, after, sender, message),
    ensures
        recipients(before, sender).len() == before.dom().len() - 1,
        forall|id: usize| #[trigger]
            recipients(before, sender).contains(id) ==> {
                ||| !after.contains_key(id)
                ||| after[id] == before[id].push(message)
            },
        forall|id: usize| #[trigger]
            after.contains_key(id) ==> id == sender || recipients(before, sender).contains(id),
        after.dom().remove(sender).len() + before.dom().difference(after.dom()).len()
            == before.dom().len() - 1,
{
    let reached = after.dom().remove(sender);
    let gone = before.dom().difference(after.dom());
    lemma_len_subset(reached, before.dom());
    lemma_len_subset(gone, before.dom());
    lemma_set_disjoint_lens(reached, gone);
    assert(reached + gone =~= recipients(before, sender));
}

/// Offering a frame around and then removing those that refused it is one
/// relay: this is how a broadcast comes about.
pub proof fn law_reaping_the_refused_completes_a_relay(
    before: Outboxes,
    offered_to: Outboxes,
    sender: usize,
    message: MessageView,
    refused: Set<usize>,
)
    requires
        offered(before, offered_to, sender, message, refused),
    ensures
        relayed(before, offered_to.remove_keys(refused), sender, message),
        before.dom().difference(offered_to.remove_keys(refused).dom()) == refused,
{
    let after = offered_to.remove_keys(refused);
    assert(before.dom().difference(after.dom()) =~= refused);
}

/// An identity is never handed out twice: the one that comes next is
/// greater than every registered one, whatever was removed in between.
pub proof fn law_next_identity_is_fresh(registry: Registry)
    requires
        registry.wf(),
    ensures
        !registry@.contains_key(registry.next_identity()),
        forall|id: usize| registry@.contains_key(id) ==> id < registry.next_identity(),
{
}

/// A recipient whose queue does not take the frame is removed by that very
/// fan-out: whoever is still registered afterwards, the sender apart, has
/// the frame as the newest of its queue.
pub proof fn law_refusing_recipient_is_removed(
    before: Outboxes,
    after: Outboxes,
    sender: usize,
    message: MessageView,
    id: usize,
)
    requires
        relayed(before, after, sender, message),
        id != sender,
        before.contains_key(id),
        !after.contains_key(id) || after[id] != before[id].push(message),
    ensures
        !after.contains_key(id),
{
}

/// A fan-out only ever adds at the end of a queue: what was queued for a
/// connection before is still there, in the same order.
pub proof fn law_queues_only_grow(
    before: Outboxes,
    after: Outboxes,
    sender: usize,
    message: MessageView,
    id: usize,
)
    requires
        relayed(before, after, sender, message),
        after.contains_key(id),
    ensures
        before.contains_key(id),
        before[id].is_prefix_of(after[id]),
{
}

/// Two frames of one sender reach every recipient in the order in which
/// they were sent: after the fan-out of `first` and then of `second`, a
/// connection that is still registered has them next to each other at the
/// end of its queue, `first` before `second`.
pub proof fn law_order_of_a_sender_is_kept(
    start: Outboxes,
    between: Outboxes,
    end: Outboxes,
    sender: usize,
    first: MessageView,
    second: MessageView,
    id: usize,
)
    requires
        relayed(start, between, sender, first),
        relayed(between, end, sender, second),
        end.contains_key(id),
        id != sender,
    ensures
        start.contains_key(id),
        end[id] == start[id].push(first).push(second),
{
}

/// Removing a connection removes its own entry and nothing else: every
/// other identity is registered exactly if it was, with the same queue.
/// The count falls by one if the identity was registered, and nothing
/// changes at all if it was not.
pub proof fn law_removal_touches_one_entry(before: Outboxes, id: usize)
    requires
        before.dom().finite(),
    ensures
        !before.remove(id).contains_key(id),
        forall|other: usize|
            other != id ==> before.remove(id).contains_key(other) == before.contains_key(other),
        forall|other: usize|
            other != id && before.contains_key(other) ==> before.remove(id)[other]
                == before[other],
        before.contains_key(id) ==> before.remove(id).dom().len() == before.dom().len() - 1,
        !before.contains_key(id) ==> before.remove(id) == before,
{
}

/// The writer hands the transport the frames in the order in which they
/// left the queue: what was written is the front of what was taken, and at
/// most one frame that was taken is not yet written.
pub proof fn law_pump_writes_in_queue_order(pump: Pump)
    requires
        pump.wf(),
    ensures
        pump.written().is_prefix_of(pump.taken()),
        pump.taken().len() - pump.written().len() <= 1,
{
}

/// A pump that has stopped takes no further frame and writes none: on
/// every event it stays stopped and says so.
pub proof fn law_stopped_pump_stays_stopped(event: PumpEvent)
    ensures
        pump_next(PumpState::Stopped, event) == PumpState::Stopped,
        pump_command(PumpState::Stopped, event) == PumpCommand::Stop,
{
}

/// A failed write and a closed queue end the pump, wherever it stands.
pub proof fn law_failure_stops_the_pump(state: PumpState, event: PumpEvent)
    requires
        event is WriteFailed || event is QueueClosed,
    ensures
        pump_next(state, event) == PumpState::Stopped,
        pump_command(state, event) == PumpCommand::Stop,
{
}

} // verus!
