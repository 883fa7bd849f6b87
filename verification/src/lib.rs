//! A relay for signalling messages: every data frame that one connection
//! sends is queued for all the other registered connections.

pub mod channel;
pub mod connection;
pub mod laws;
pub mod message;
pub mod pump;
pub mod registry;

pub use connection::{Action, Directive, Inbound};
pub use message::{CloseFrame, Kind, Message, MessageView};
pub use pump::{Pump, PumpCommand, PumpEvent, PumpState};
pub use registry::{enrolled, identity_of, offered, queue_after, relayed, Outboxes, Registry};
