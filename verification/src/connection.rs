//! One connection's reading side: what each event on its transport asks
//! for, and the step that carries it out on the registry.
//!
//! The caller reads the transport, hands each event to
//! [`Registry::on_inbound`], and goes on as the returned [`Directive`] says.

use vstd::prelude::*;
use crate::message::{Kind, Message};
use crate::registry::{relayed, Registry};

verus! {

/// What one read of a connection's transport gave.
#[derive(Debug, PartialEq, Eq)]
pub enum Inbound {
    /// A frame arrived.
    Frame(Message),
    /// The peer ended the stream.
    Closed,
    /// The read failed.
    Failed,
}

/// What an inbound event asks for.
#[derive(Clone, Copy, Debug, PartialEq, Eq, Structural)]
pub enum Action {
    /// Pass the frame on to the other connections.
    Relay,
    /// Drop the frame and read on.
    Ignore,
    /// Stop reading: the connection ends.
    Leave,
}

/// What the caller does after a step.
#[derive(Clone, Copy, Debug, PartialEq, Eq, Structural)]
pub enum Directive {
    /// Read the next event.
    KeepReading,
    /// The connection is no longer registered: stop its writer.
    StopWriter,
}

impl Inbound {
    /// Text and binary frames are relayed. A close frame, the end of the
    /// stream and a failed read end the connection. Other control frames
    /// are dropped.
    pub open spec fn spec_action(self) -> Action {
        match self {
            Inbound::Frame(frame) => if frame@.is_data() {
                Action::Relay
            } else if frame@.kind() == Kind::Close {
                Action::Leave
            } else {
                Action::Ignore
            },
            Inbound::Closed => Action::Leave,
            Inbound::Failed => Action::Leave,
        }
    }

    /// What this event asks for.
    pub fn action(&self) -> (action: Action)
        ensures
            action == self.spec_action(),
    {
        match self {
            Inbound::Frame(frame) => match frame.kind() {
                Kind::Text => Action::Relay,
                Kind::Binary => Action::Relay,
                Kind::Close => Action::Leave,
                Kind::Control => Action::Ignore,
            },
            Inbound::Closed => Action::Leave,
            Inbound::Failed => Action::Leave,
        }
    }
}

impl Registry {
    /// Carries out one inbound event of connection `id`.
    ///
    /// A data frame is queued for every other registered connection, and
    /// the ones that refuse it are removed. An event that ends the
    /// connection removes `id` itself, so that it is gone from the registry
    /// by the time the caller stops its writer. Anything else changes
    /// nothing.
    pub fn on_inbound(&mut self, id: usize, event: Inbound) -> (next: Directive)
        requires
            old(self).wf(),
        ensures
            final(self).wf(),
            final(self).next_identity() == old(self).next_identity(),
            match event.spec_action() {
                Action::Relay => {
                    &&& next == Directive::KeepReading
                    &&& relayed(old(self)@, final(self)@, id, event->Frame_0@)
                },
                Action::Ignore => {
                    &&& next == Directive::KeepReading
                    &&& final(self)@ == old(self)@
                },
                Action::Leave => {
                    &&& next == Directive::StopWriter
                    &&& final(self)@ == old(self)@.remove(id)
                },
            },
    {
        match event.action() {
            Action::Relay => {
                if let Inbound::Frame(frame) = event {
                    self.broadcast(frame, id);
                }
                Directive::KeepReading
            },
            Action::Ignore => Directive::KeepReading,
            Action::Leave => {
                self.remove(id);
                Directive::StopWriter
            },
        }
    }
}

} // verus!
