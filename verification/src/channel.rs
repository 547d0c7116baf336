//! The channels between handles and actors.

use vstd::prelude::*;
use crate::messages::{StmtInput, StmtOutput};

verus! {

#[verifier::external_type_specification]
#[verifier::external_body]
#[verifier::reject_recursive_types(T)]
pub struct ExSender<T>(async_channel::Sender<T>);

#[verifier::external_type_specification]
#[verifier::external_body]
#[verifier::reject_recursive_types(T)]
pub struct ExReceiver<T>(async_channel::Receiver<T>);

/// The two channel ends through which a statement actor is reached.
///
/// An answer of the actor can carry the ends of another statement actor, so
/// the type of the answers runs through this one; its fields are therefore
/// kept out of the verifier's sight.
#[verifier::external_body]
#[derive(Debug)]
pub struct StatementLink {
    sender: async_channel::Sender<StmtInput>,
    receiver: async_channel::Receiver<StmtOutput>,
}

impl StatementLink {
    /// Joins the two ends.
    #[verifier::external_body]
    pub(crate) fn new(
        sender: async_channel::Sender<StmtInput>,
        receiver: async_channel::Receiver<StmtOutput>,
    ) -> (link: StatementLink) {
        StatementLink { sender, receiver }
    }

    /// The end that takes requests.
    #[verifier::external_body]
    pub(crate) fn sender(&self) -> (sender: &async_channel::Sender<StmtInput>) {
        &self.sender
    }

    /// The end that gives answers.
    #[verifier::external_body]
    pub(crate) fn receiver(&self) -> (receiver: &async_channel::Receiver<StmtOutput>) {
        &self.receiver
    }
}

/// `Sender::send_blocking`: hands a message to the channel. It fails only
/// when the channel is closed, and then the message is dropped.
#[verifier::external_body]
pub(crate) fn send_blocking<T>(sender: &async_channel::Sender<T>, message: T) -> (sent: bool) {
    sender.send_blocking(message).is_ok()
}

/// `Receiver::recv_blocking`: waits for the next message, for as long as the
/// channel is open and empty. It fails only when the channel is closed and
/// empty.
#[verifier::external_body]
pub(crate) fn recv_blocking<T>(receiver: &async_channel::Receiver<T>) -> (received: Option<T>) {
    receiver.recv_blocking().ok()
}

} // verus!
