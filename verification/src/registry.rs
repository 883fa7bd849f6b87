//! The registry of live connections and the fan-out of one frame to all of
//! them but its sender.
//!
//! A [`Registry`] maps each connection's identity to the producing end of
//! that connection's outbound queue. Its mathematical value is a map from
//! identity to the frames that the queue has accepted since the connection
//! registered, oldest first. A frame counts as accepted when the queue's
//! `send` returned `Ok`.

use vstd::prelude::*;
use vstd::std_specs::iter::IteratorSpec;
use std::collections::HashMap;
use tokio::sync::mpsc::{UnboundedReceiver, UnboundedSender};
use crate::message::{Message, MessageView};

verus! {

/// For each registered identity, the frames queued for it so far.
pub type Outboxes = Map<usize, Seq<MessageView>>;

/// What one fan-out of `message` from `sender` may turn `before` into.
///
/// No identity is added and the sender's own entry stays as it was. Every
/// other identity that is still there has taken `message` at the end of its
/// queue; the ones that did not take it are gone.
pub open spec fn relayed(
    before: Outboxes,
    after: Outboxes,
    sender: usize,
    message: MessageView,
) -> bool {
    &&& after.dom().subset_of(before.dom())
    &&& before.contains_key(sender) ==> after.contains_key(sender)
    &&& forall|id: usize| #[trigger]
        after.contains_key(id) ==> after[id] == if id == sender {
            before[id]
        } else {
            before[id].push(message)
        }
}

/// What is queued for `id` once `message` from `sender` has been offered
/// around and the connections in `refused` have not taken it.
pub open spec fn queue_after(
    before: Outboxes,
    sender: usize,
    message: MessageView,
    refused: Set<usize>,
    id: usize,
) -> Seq<MessageView> {
    if id == sender || refused.contains(id) {
        before[id]
    } else {
        before[id].push(message)
    }
}

/// What offering `message` from `sender` to every other connection turns
/// `before` into, when exactly the connections in `refused` do not take it.
///
/// The same identities are registered. The sender is never offered its own
/// frame, so it cannot refuse it. Every other connection that did not
/// refuse has the frame as the newest of its queue, and the queues of the
/// sender and of those that refused are as they were.
pub open spec fn offered(
    before: Outboxes,
    after: Outboxes,
    sender: usize,
    message: MessageView,
    refused: Set<usize>,
) -> bool {
    &&& after.dom() == before.dom()
    &&& refused.subset_of(before.dom().remove(sender))
    &&& forall|id: usize| #[trigger]
        after.contains_key(id) ==> after[id] == queue_after(before, sender, message, refused, id)
}

/// The live connections, each with the producing end of its outbound queue.
pub struct Registry {
    clients: HashMap<usize, UnboundedSender<Message>>,
    next_id: usize,
    queued: Ghost<Outboxes>,
}

impl Registry {
    /// The registered identities, each with the frames queued for it since
    /// it registered, oldest first.
    pub closed spec fn view(&self) -> Outboxes {
        self.queued@
    }

    /// The identity that the next registration will get.
    pub closed spec fn next_identity(&self) -> usize {
        self.next_id
    }

    /// The queue handles are kept for exactly the registered identities.
    pub closed spec fn coherent(&self) -> bool {
        self.clients@.dom() == self.queued@.dom()
    }

    /// Identities start at 1 and every registered one was handed out before.
    pub open spec fn wf(&self) -> bool {
        &&& self.coherent()
        &&& self@.dom().finite()
        &&& 1 <= self.next_identity()
        &&& forall|id: usize| #[trigger] self@.contains_key(id) ==> 1 <= id < self.next_identity()
    }

    /// A registry without connections. The first identity is 1.
    pub fn new() -> (registry: Registry)
        ensures
            registry.wf(),
            registry@ == Outboxes::empty(),
            registry.next_identity() == 1,
    {
        Registry { clients: HashMap::new(), next_id: 1, queued: Ghost(Map::empty()) }
    }

    /// Registers the producing end of a connection's queue under a fresh
    /// identity and returns that identity, or `None` when the identities
    /// are used up.
    pub fn register(&mut self, handle: UnboundedSender<Message>) -> (id: Option<usize>)
        requires
            old(self).wf(),
        ensures
            final(self).wf(),
            enrolled(*old(self), *final(self), id),
    {
        if self.next_id == usize::MAX {
            return None;
        }
        let id: usize = self.next_id;
        self.next_id = id + 1;
        self.clients.insert(id, handle);
        self.queued = Ghost(self.queued@.insert(id, Seq::empty()));
        Some(id)
    }

    /// Accepts a new connection: makes its outbound queue, registers the
    /// producing end, and returns the identity with the consuming end, which
    /// belongs to the connection's writer. `None` when the identities are
    /// used up.
    pub fn connect(&mut self) -> (link: Option<(usize, UnboundedReceiver<Message>)>)
        requires
            old(self).wf(),
        ensures
            final(self).wf(),
            enrolled(*old(self), *final(self), identity_of(link)),
    {
        let (producer, consumer) = tokio::sync::mpsc::unbounded_channel::<Message>();
        match self.register(producer) {
            Some(id) => Some((id, consumer)),
            None => None,
        }
    }

    /// Removes a connection. Removing an identity that is not registered
    /// changes nothing.
    pub fn remove(&mut self, id: usize)
        requires
            old(self).wf(),
        ensures
            final(self).wf(),
            final(self).next_identity() == old(self).next_identity(),
            final(self)@ == old(self)@.remove(id),
    {
        self.clients.remove(&id);
        self.queued = Ghost(self.queued@.remove(id));
    }

    /// Whether `id` is registered.
    pub fn contains(&self, id: usize) -> (present: bool)
        requires
            self.wf(),
        ensures
            present == self@.contains_key(id),
    {
        self.clients.contains_key(&id)
    }

    /// The number of registered connections.
    pub fn len(&self) -> (count: usize)
        requires
            self.wf(),
        ensures
            count == self@.dom().len(),
    {
        self.clients.len()
    }

    /// Whether no connection is registered.
    pub fn is_empty(&self) -> (empty: bool)
        requires
            self.wf(),
        ensures
            empty == (self@.dom().len() == 0),
    {
        self.clients.len() == 0
    }

    /// The identities registered at this moment, each once, in no
    /// particular order.
    pub fn snapshot(&self) -> (ids: Vec<usize>)
        requires
            self.wf(),
        ensures
            ids@.no_duplicates(),
            ids@.to_set() == self@.dom(),
    {
        let mut ids: Vec<usize> = Vec::new();
        for id in keys: self.clients.keys()
            invariant
                keys.seq() == self.clients.keys().remaining(),
                ids@.len() == keys.index(),
                forall|j: int| 0 <= j < ids@.len() ==> ids@[j] == *keys.seq()[j],
        {
            ids.push(*id);
        }
        proof {
            let all = self.clients.keys().remaining();
            assert(ids@ =~= all.unref());
        }
        ids
    }

    /// Offers `message` to the queue of `id`. Returns whether the queue
    /// took it: never for an identity that is not registered, and for a
    /// registered one unless the consuming end of its queue is gone.
    pub fn enqueue(&mut self, id: usize, message: Message) -> (accepted: bool)
        requires
            old(self).wf(),
        ensures
            final(self).wf(),
            final(self).next_identity() == old(self).next_identity(),
            accepted ==> old(self)@.contains_key(id),
            final(self)@ == if accepted {
                old(self)@.insert(id, old(self)@[id].push(message@))
            } else {
                old(self)@
            },
    {
        let frame = Ghost(message@);
        let outcome = match self.clients.get(&id) {
            Some(handle) => handle.send(message),
            None => {
                return false;
            },
        };
        self.settle(id, frame, outcome)
    }

    /// Books what the queue of `id` answered when `frame` was offered to
    /// it. On `Ok` the frame is the newest of that queue; on `Err` nothing
    /// was queued and nothing changes. Returns whether it was `Ok`.
    fn settle(
        &mut self,
        id: usize,
        frame: Ghost<MessageView>,
        outcome: Result<(), tokio::sync::mpsc::error::SendError<Message>>,
    ) -> (accepted: bool)
        requires
            old(self).wf(),
            old(self)@.contains_key(id),
        ensures
            final(self).wf(),
            final(self).next_identity() == old(self).next_identity(),
            accepted == outcome is Ok,
            final(self)@ == if outcome is Ok {
                old(self)@.insert(id, old(self)@[id].push(frame@))
            } else {
                old(self)@
            },
    {
        match outcome {
            Ok(_) => {
                self.queued = Ghost(self.queued@.insert(id, self.queued@[id].push(frame@)));
                proof {
                    assert(self.queued@.dom() =~= old(self).queued@.dom());
                }
                true
            },
            Err(_) => false,
        }
    }

    /// Removes every identity in `dead`. Identities that are not registered,
    /// or that occur more than once, are passed over.
    pub fn reap(&mut self, dead: &Vec<usize>)
        requires
            old(self).wf(),
        ensures
            final(self).wf(),
            final(self).next_identity() == old(self).next_identity(),
            final(self)@ == old(self)@.remove_keys(dead@.to_set()),
    {
        let mut i: usize = 0;
        while i < dead.len()
            invariant
                0 <= i <= dead.len(),
                self.wf(),
                self.next_identity() == old(self).next_identity(),
                self@ == old(self)@.remove_keys(dead@.take(i as int).to_set()),
            decreases dead.len() - i,
        {
            let ghost done = dead@.take(i as int);
            self.remove(dead[i]);
            proof {
                assert(dead@.take(i + 1) =~= done.push(dead@[i as int]));
                done.lemma_push_to_set_commute(dead@[i as int]);
            }
            i += 1;
        }
        proof {
            assert(dead@.take(dead@.len() as int) =~= dead@);
        }
    }

    /// Offers `message` to the queue of every registered connection but
    /// `sender`, and returns the identities whose queue refused it, each
    /// once. Nobody is removed.
    pub fn fan_out(&mut self, message: &Message, sender: usize) -> (refused: Vec<usize>)
        requires
            old(self).wf(),
        ensures
            final(self).wf(),
            final(self).next_identity() == old(self).next_identity(),
            refused@.no_duplicates(),
            offered(old(self)@, final(self)@, sender, message@, refused@.to_set()),
    {
        let ids = self.snapshot();
        let mut refused: Vec<usize> = Vec::new();
        let mut i: usize = 0;
        while i < ids.len()
            invariant
                0 <= i <= ids.len(),
                ids@.no_duplicates(),
                ids@.to_set() == old(self)@.dom(),
                self.wf(),
                self.next_identity() == old(self).next_identity(),
                self@.dom() == old(self)@.dom(),
                refused@.no_duplicates(),
                refused@.to_set().subset_of(ids@.take(i as int).to_set().remove(sender)),
                forall|id: usize| #[trigger]
                    self@.contains_key(id) ==> self@[id] == if ids@.take(i as int).to_set().contains(
                        id,
                    ) {
                        queue_after(old(self)@, sender, message@, refused@.to_set(), id)
                    } else {
                        old(self)@[id]
                    },
            decreases ids.len() - i,
        {
            let id: usize = ids[i];
            let ghost seen = ids@.take(i as int);
            let ghost was_refused = refused@;
            proof {
                assert(ids@.take(i + 1) =~= seen.push(id));
                seen.lemma_push_to_set_commute(id);
            }
            if id != sender && !self.enqueue(id, message.clone()) {
                refused.push(id);
                proof {
                    was_refused.lemma_push_to_set_commute(id);
                    assert forall|a: int, b: int| 0 <= a < b < refused@.len() implies refused@[a]
                        != refused@[b] by {
                        if b == was_refused.len() {
                            assert(was_refused.to_set().contains(was_refused[a]));
                        }
                    }
                }
            }
            i += 1;
        }
        proof {
            assert(ids@.take(ids@.len() as int) =~= ids@);
        }
        refused
    }

    /// Queues `message` for every registered connection but `sender`, then
    /// removes the ones whose queue refused it. Returns the identities that
    /// were removed, each once.
    pub fn broadcast(&mut self, message: Message, sender: usize) -> (dead: Vec<usize>)
        requires
            old(self).wf(),
        ensures
            final(self).wf(),
            final(self).next_identity() == old(self).next_identity(),
            relayed(old(self)@, final(self)@, sender, message@),
            dead@.no_duplicates(),
            dead@.to_set() == old(self)@.dom().difference(final(self)@.dom()),
    {
        let dead = self.fan_out(&message, sender);
        self.reap(&dead);
        dead
    }
}

/// What a registration that returns `id` makes of the registry `before`.
///
/// The new connection gets the identity that was next, which no registered
/// connection has, and starts with an empty queue; the identity after it
/// comes next. When the identities are used up nothing changes.
pub open spec fn enrolled(before: Registry, after: Registry, id: Option<usize>) -> bool {
    match id {
        Some(id) => {
            &&& id == before.next_identity()
            &&& id < usize::MAX
            &&& !before@.contains_key(id)
            &&& after.next_identity() == id + 1
            &&& after@ == before@.insert(id, Seq::empty())
        },
        None => {
            &&& before.next_identity() == usize::MAX
            &&& after.next_identity() == usize::MAX
            &&& after@ == before@
        },
    }
}

/// The identity in what [`Registry::connect`] returns.
pub open spec fn identity_of(link: Option<(usize, UnboundedReceiver<Message>)>) -> Option<usize> {
    match link {
        Some((id, _)) => Some(id),
        None => None,
    }
}

} // verus!
