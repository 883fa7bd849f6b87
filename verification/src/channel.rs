//! The unbounded queue that carries frames to one connection's writer.
//!
//! The queue itself is `tokio::sync::mpsc`'s. Nothing about it is proved
//! here: the declarations below only make its types and the two calls that
//! the relay needs known to the verifier.

use vstd::prelude::*;
use tokio::sync::mpsc::error::SendError;
use tokio::sync::mpsc::{UnboundedReceiver, UnboundedSender};

verus! {

/// `tokio::sync::mpsc::UnboundedSender`, the producing end of a queue. Its
/// contents are hidden from the verifier.
#[verifier::external_type_specification]
#[verifier::external_body]
#[verifier::reject_recursive_types(T)]
pub struct ExUnboundedSender<T>(UnboundedSender<T>);

/// `tokio::sync::mpsc::UnboundedReceiver`, the consuming end of a queue. Its
/// contents are hidden from the verifier.
#[verifier::external_type_specification]
#[verifier::external_body]
#[verifier::reject_recursive_types(T)]
pub struct ExUnboundedReceiver<T>(UnboundedReceiver<T>);

/// `tokio::sync::mpsc::error::SendError`, which hands a refused value back.
/// Its contents are hidden from the verifier.
#[verifier::external_type_specification]
#[verifier::external_body]
#[verifier::reject_recursive_types(T)]
pub struct ExSendError<T>(SendError<T>);

/// `tokio::sync::mpsc::unbounded_channel` makes a fresh queue and returns
/// its two ends. Nothing is claimed of them.
pub assume_specification<T>[ tokio::sync::mpsc::unbounded_channel::<T> ]() -> (ends: (
    UnboundedSender<T>,
    UnboundedReceiver<T>,
));

/// `UnboundedSender::send` never waits. It returns `Ok` when it has put the
/// value on the queue and `Err` when the consuming end is closed or gone.
/// Which of the two happens depends on the other end, so nothing is claimed
/// of the result. (The call ends the process if the count of values that
/// wait on one queue ever overflows, which memory rules out.)
pub assume_specification<T>[ UnboundedSender::<T>::send ](
    sender: &UnboundedSender<T>,
    message: T,
) -> (outcome: Result<(), SendError<T>>);

} // verus!
