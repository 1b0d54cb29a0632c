//! The kill signal of a runner, carried by an unbounded tokio channel.
//!
//! Nothing here is proved. The verifier takes the channel for a value it
//! cannot look into, so no contract in this crate says what a message sent on
//! it does; the state machines are told of a kill request by the event
//! `KillRequested`, which the owner of the receiving half reports.

use tokio::sync::mpsc::{UnboundedReceiver, UnboundedSender};
use vstd::prelude::*;

verus! {

/// Makes `tokio::sync::mpsc::UnboundedSender`, the sending half of an
/// unbounded channel, known to the verifier as a type whose inside it cannot
/// see.
#[verifier::external_type_specification]
#[verifier::external_body]
#[verifier::reject_recursive_types(T)]
pub struct ExUnboundedSender<T>(UnboundedSender<T>);

/// Makes `tokio::sync::mpsc::UnboundedReceiver`, the receiving half of an
/// unbounded channel, known to the verifier as a type whose inside it cannot
/// see.
#[verifier::external_type_specification]
#[verifier::external_body]
#[verifier::reject_recursive_types(T)]
pub struct ExUnboundedReceiver<T>(UnboundedReceiver<T>);

/// Calls `tokio::sync::mpsc::unbounded_channel` for unit messages and hands
/// back both halves. Nothing is claimed about them.
#[verifier::external_body]
pub(crate) fn kill_channel() -> (halves: (UnboundedSender<()>, UnboundedReceiver<()>)) {
    tokio::sync::mpsc::unbounded_channel()
}

/// Calls `tokio::sync::mpsc::UnboundedSender::send` with the unit message and
/// says whether the channel took it. Nothing is claimed about the answer: it
/// depends on whether the receiving half is still open.
#[verifier::external_body]
pub(crate) fn send_unit(sender: &UnboundedSender<()>) -> (accepted: bool) {
    sender.send(()).is_ok()
}

/// Calls `Clone::clone` of `tokio::sync::mpsc::UnboundedSender`, which yields
/// another sender of the same channel. Nothing is claimed about it.
#[verifier::external_body]
pub(crate) fn clone_sender(sender: &UnboundedSender<()>) -> (copy: UnboundedSender<()>) {
    sender.clone()
}

} // verus!
