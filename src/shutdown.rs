//! The one-shot shutdown signal of an embedded client run, carried over
//! tokio's unbounded channel.
use vstd::prelude::*;

use tokio::sync::mpsc::{UnboundedReceiver, UnboundedSender};

verus! {

/// Declares `tokio::sync::mpsc::UnboundedSender`, held opaquely by a client
/// between the start of a run and its stop.
#[verifier::external_type_specification]
#[verifier::external_body]
#[verifier::reject_recursive_types(T)]
pub struct ExUnboundedSender<T>(UnboundedSender<T>);

/// Declares `tokio::sync::mpsc::UnboundedReceiver`, handed opaquely to the
/// task that carries out a run.
#[verifier::external_type_specification]
#[verifier::external_body]
#[verifier::reject_recursive_types(T)]
pub struct ExUnboundedReceiver<T>(UnboundedReceiver<T>);

/// Relies on `tokio::sync::mpsc::unbounded_channel`: a fresh channel whose two
/// halves are connected to each other and to nothing else.
#[verifier::external_body]
pub(crate) fn new_shutdown_channel() -> (UnboundedSender<()>, UnboundedReceiver<()>) {
    tokio::sync::mpsc::unbounded_channel()
}

/// Relies on `tokio::sync::mpsc::UnboundedSender::send`: queues one message
/// without waiting. It fails only when the receiver has been dropped, in which
/// case nobody is left to be told to stop, so the outcome is not reported.
#[verifier::external_body]
pub(crate) fn send_shutdown(sender: UnboundedSender<()>) {
    let _ = sender.send(());
}

} // verus!
