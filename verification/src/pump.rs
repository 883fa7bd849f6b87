//! One connection's writing side: the pump that takes frames off the
//! outbound queue and hands them to the transport, one at a time.
//!
//! The pump itself neither waits nor writes. The caller does what the last
//! [`PumpCommand`] says, reports what came of it as a [`PumpEvent`], and
//! gets the next command back. A fresh pump waits for
//! [`PumpCommand::Dequeue`] to be carried out.

use vstd::prelude::*;
use crate::message::{Message, MessageView};

verus! {

/// Where a pump stands.
#[derive(Clone, Copy, Debug, PartialEq, Eq, Structural)]
pub enum PumpState {
    /// Waiting for the next frame from the queue.
    Idle,
    /// A frame is being written to the transport.
    Writing,
    /// The pump has ended and takes no further frame.
    Stopped,
}

/// What the caller reports to the pump.
#[derive(Debug, PartialEq, Eq)]
pub enum PumpEvent {
    /// The queue gave its next frame.
    Dequeued(Message),
    /// The queue is closed and drained.
    QueueClosed,
    /// The transport took the frame.
    Written,
    /// The write failed: the connection is dead.
    WriteFailed,
}

/// What the pump asks the caller to do next.
#[derive(Debug, PartialEq, Eq)]
pub enum PumpCommand {
    /// Wait for the next frame of the queue.
    Dequeue,
    /// Write this frame to the transport.
    Write(Message),
    /// Stop, and let go of the transport.
    Stop,
}

/// The state that follows `state` on `event`. A frame is written as soon
/// as it is taken, and the next one is taken only after that write went
/// through. A closed queue, a failed write, and any event that the pump
/// did not ask for stop it for good.
pub open spec fn pump_next(state: PumpState, event: PumpEvent) -> PumpState {
    match (state, event) {
        (PumpState::Idle, PumpEvent::Dequeued(_)) => PumpState::Writing,
        (PumpState::Writing, PumpEvent::Written) => PumpState::Idle,
        _ => PumpState::Stopped,
    }
}

/// The command that the pump gives in `state` on `event`.
pub open spec fn pump_command(state: PumpState, event: PumpEvent) -> PumpCommand {
    match (state, event) {
        (PumpState::Idle, PumpEvent::Dequeued(frame)) => PumpCommand::Write(frame),
        (PumpState::Writing, PumpEvent::Written) => PumpCommand::Dequeue,
        _ => PumpCommand::Stop,
    }
}

/// The writer of one connection.
pub struct Pump {
    state: PumpState,
    taken: Ghost<Seq<MessageView>>,
    written: Ghost<Seq<MessageView>>,
}

impl Pump {
    /// Where the pump stands.
    pub closed spec fn spec_state(&self) -> PumpState {
        self.state
    }

    /// The frames taken off the queue so far, oldest first.
    pub closed spec fn taken(&self) -> Seq<MessageView> {
        self.taken@
    }

    /// The frames that the transport took so far, oldest first.
    pub closed spec fn written(&self) -> Seq<MessageView> {
        self.written@
    }

    /// The transport got the frames in the order in which they left the
    /// queue, none left out and none twice: what was written is what was
    /// taken, but for the one frame whose write is under way or failed.
    pub open spec fn wf(&self) -> bool {
        match self.spec_state() {
            PumpState::Idle => self.written() == self.taken(),
            PumpState::Writing => self.taken().len() > 0 && self.written()
                == self.taken().drop_last(),
            PumpState::Stopped => self.written() == self.taken() || (self.taken().len() > 0
                && self.written() == self.taken().drop_last()),
        }
    }

    /// A pump that has taken nothing yet and waits for the first frame.
    pub fn new() -> (pump: Pump)
        ensures
            pump.wf(),
            pump.spec_state() == PumpState::Idle,
            pump.taken() == Seq::<MessageView>::empty(),
            pump.written() == Seq::<MessageView>::empty(),
    {
        Pump { state: PumpState::Idle, taken: Ghost(Seq::empty()), written: Ghost(Seq::empty()) }
    }

    /// Where the pump stands.
    pub fn state(&self) -> (state: PumpState)
        ensures
            state == self.spec_state(),
    {
        self.state
    }

    /// Takes what the caller reports and says what to do next.
    pub fn step(&mut self, event: PumpEvent) -> (command: PumpCommand)
        requires
            old(self).wf(),
        ensures
            final(self).wf(),
            final(self).spec_state() == pump_next(old(self).spec_state(), event),
            command == pump_command(old(self).spec_state(), event),
            final(self).taken() == if command is Write {
                old(self).taken().push(command->Write_0@)
            } else {
                old(self).taken()
            },
            final(self).written() == if command is Dequeue {
                old(self).taken()
            } else {
                old(self).written()
            },
    {
        match (self.state, event) {
            (PumpState::Idle, PumpEvent::Dequeued(frame)) => {
                self.taken = Ghost(self.taken@.push(frame@));
                self.state = PumpState::Writing;
                proof {
                    assert(self.taken@.drop_last() =~= self.written@);
                }
                PumpCommand::Write(frame)
            },
            (PumpState::Writing, PumpEvent::Written) => {
                self.written = self.taken;
                self.state = PumpState::Idle;
                PumpCommand::Dequeue
            },
            _ => {
                self.state = PumpState::Stopped;
                PumpCommand::Stop
            },
        }
    }
}

} // verus!
