//! What every handler is handed: the offset tracker and the channel to the sink.

use crate::messaging::offset_tracker::OffsetTracker;
use crate::service::bg::Message;
use crossbeam::channel::{Receiver, Sender};
use vstd::prelude::*;

verus! {

#[verifier::external_type_specification]
#[verifier::external_body]
#[verifier::reject_recursive_types(T)]
pub struct ExSender<T>(Sender<T>);

#[verifier::external_type_specification]
#[verifier::external_body]
#[verifier::reject_recursive_types(T)]
pub struct ExReceiver<T>(Receiver<T>);

/// The bundle built once at start-up: the tracker of the poll loop and both
/// ends of the unbounded channel that feeds the batch sink.
pub struct Context {
    pub offset_tracker: OffsetTracker,
    pub bg_sender: Sender<Message>,
    pub bg_receiver: Receiver<Message>,
}

/// Whether the two senders belong to the same channel, as
/// `Sender::same_channel` tells.
pub uninterp spec fn senders_share(first: Sender<Message>, second: Sender<Message>) -> bool;

/// Whether the two receivers belong to the same channel, as
/// `Receiver::same_channel` tells.
pub uninterp spec fn receivers_share(first: Receiver<Message>, second: Receiver<Message>) -> bool;

/// Calls `Sender::clone`. Trusted: the copy is another handle of the same
/// channel. Of what the copy has sent nothing is said.
#[verifier::external_body]
fn clone_sender(sender: &Sender<Message>) -> (copy: Sender<Message>)
    ensures
        senders_share(copy, *sender),
{
    sender.clone()
}

/// Calls `Receiver::clone`. Trusted: the copy is another handle of the same
/// channel.
#[verifier::external_body]
fn clone_receiver(receiver: &Receiver<Message>) -> (copy: Receiver<Message>)
    ensures
        receivers_share(copy, *receiver),
{
    receiver.clone()
}

impl Context {
    /// A context on the same channel, with a tracker of its own that holds
    /// what this one holds now. The tracker is a copy and no second handle:
    /// what is written to either of the two afterwards does not show in the
    /// other.
    pub fn detached_copy(&self) -> (copy: Context)
        ensures
            copy.offset_tracker@ == self.offset_tracker@,
            senders_share(copy.bg_sender, self.bg_sender),
            receivers_share(copy.bg_receiver, self.bg_receiver),
    {
        Context {
            offset_tracker: self.offset_tracker.detached_copy(),
            bg_sender: clone_sender(&self.bg_sender),
            bg_receiver: clone_receiver(&self.bg_receiver),
        }
    }
}

/// The messages that were handed to the channel through this handle, oldest
/// first. What other handles sent, and what has been received since, is not
/// part of it.
pub uninterp spec fn sent_through(sender: Sender<Message>) -> Seq<Message>;

/// Calls `Sender::try_send`, which never blocks. Trusted: where the call
/// succeeds the message has gone into the channel, as the last that this
/// handle sent; where it fails the channel has not taken it. The call fails
/// when every receiver is gone, or when a bounded channel is full.
#[verifier::external_body]
pub(crate) fn enqueue(sender: &mut Sender<Message>, message: Message) -> (accepted: bool)
    ensures
        sent_through(*final(sender)) == (if accepted {
            sent_through(*old(sender)).push(message)
        } else {
            sent_through(*old(sender))
        }),
{
    sender.try_send(message).is_ok()
}

impl Context {
    /// The messages that this context has handed to the sink's channel.
    pub open spec fn sent(&self) -> Seq<Message> {
        sent_through(self.bg_sender)
    }
}

} // verus!
