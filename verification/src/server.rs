//! The ingestion channel: how what the player says outside the game reaches
//! the session.
//!
//! Any number of threads put text into the channel; the thread that owns the
//! session takes out, without waiting, whatever has come in. The channel has
//! no bound, so putting text in never waits either.

use vstd::prelude::*;
use crate::network::{
    actions_view, after_inputs, input_texts, ChatInputRequest, ChatSession, SessionAction,
};

verus! {

/// `crossbeam_channel::Sender`, as something that is handed on and not looked
/// into.
#[verifier::external_type_specification]
#[verifier::external_body]
#[verifier::reject_recursive_types(T)]
pub struct ExSender<T>(crossbeam_channel::Sender<T>);

/// `crossbeam_channel::Receiver`, as something that is handed on and not
/// looked into.
#[verifier::external_type_specification]
#[verifier::external_body]
#[verifier::reject_recursive_types(T)]
pub struct ExReceiver<T>(crossbeam_channel::Receiver<T>);

/// The channel that a sending end belongs to. An end belongs to one channel
/// for as long as it lives.
pub uninterp spec fn sender_channel(sender: crossbeam_channel::Sender<String>) -> nat;

/// The channel that a receiving end belongs to.
pub uninterp spec fn receiver_channel(receiver: crossbeam_channel::Receiver<String>) -> nat;

/// Calls `crossbeam_channel::unbounded`, which makes one channel and returns
/// its two ends. The contract says that much: the two ends belong to the same
/// channel. Which channel that is, and what it holds, is not claimed.
#[verifier::external_body]
fn open_channel() -> (ends: (crossbeam_channel::Sender<String>, crossbeam_channel::Receiver<String>))
    ensures
        sender_channel(ends.0) == receiver_channel(ends.1),
{
    crossbeam_channel::unbounded()
}

/// Calls `Sender::send`, and hands the text back where the call reports that
/// the channel is disconnected. Whether it does depends on what has become of
/// the receiving end, so the contract says only what the error holds: the
/// message as it was sent.
#[verifier::external_body]
fn send_text(sender: &crossbeam_channel::Sender<String>, text: String) -> (r: Result<(), String>)
    ensures
        r matches Err(back) ==> back == text,
{
    sender.send(text).map_err(|refused| refused.0)
}

/// `Sender::clone`: one more sending end of the same channel. Nothing is
/// claimed of it.
pub assume_specification<T>[ <crossbeam_channel::Sender<T> as Clone>::clone ](
    sender: &crossbeam_channel::Sender<T>,
) -> (another: crossbeam_channel::Sender<T>)
;

/// Calls `Receiver::try_iter` and collects what it yields: the messages that
/// are in the channel, oldest first, without waiting for more. Nothing is
/// claimed of them: what is in the channel depends on the other threads.
#[verifier::external_body]
fn take_queued(receiver: &crossbeam_channel::Receiver<String>) -> (texts: Vec<String>) {
    receiver.try_iter().collect()
}

/// The end of the channel that text is put into. A clone is one more such end
/// of the same channel, for another thread.
#[derive(Clone)]
pub struct InputSender {
    sender: crossbeam_channel::Sender<String>,
}

/// The end of the channel that the session's thread takes text out of.
pub struct InputReceiver {
    receiver: crossbeam_channel::Receiver<String>,
}

impl InputSender {
    /// The channel that this end puts text into.
    pub closed spec fn channel(self) -> nat {
        sender_channel(self.sender)
    }
}

impl InputReceiver {
    /// The channel that this end takes text out of.
    pub closed spec fn channel(self) -> nat {
        receiver_channel(self.receiver)
    }
}

/// Opens an ingestion channel: one new channel, of which the first end puts
/// text in and the second takes it out.
pub fn ingestion_channel() -> (ends: (InputSender, InputReceiver))
    ensures
        ends.0.channel() == ends.1.channel(),
{
    let (sender, receiver) = open_channel();
    (InputSender { sender }, InputReceiver { receiver })
}

/// Makes an input for the session of each text, one for one and in order.
pub fn requests_of(texts: Vec<String>) -> (r: Vec<ChatInputRequest>)
    ensures
        r.len() == texts.len(),
        forall|i: int| 0 <= i < r.len() ==> (#[trigger] r[i]).text@ == texts[i]@,
{
    let mut requests: Vec<ChatInputRequest> = Vec::new();
    let mut i: usize = 0;
    while i < texts.len()
        invariant
            i <= texts.len(),
            requests.len() == i,
            forall|k: int| 0 <= k < i ==> (#[trigger] requests[k]).text@ == texts[k]@,
        decreases texts.len() - i,
    {
        requests.push(ChatInputRequest { text: texts[i].clone() });
        i += 1;
    }
    requests
}

impl InputSender {
    /// Puts `text` into the channel. This never waits. It fails only where the
    /// receiving end is gone, and then hands the text back.
    pub fn enqueue(&self, text: String) -> (r: Result<(), String>)
        ensures
            r matches Err(back) ==> back == text,
    {
        send_text(&self.sender, text)
    }
}

impl InputReceiver {
    /// Takes out everything that is in the channel, oldest first, and makes an
    /// input of each. This never waits: where nothing has come in, nothing
    /// comes out.
    pub fn drain(&self) -> (r: Vec<ChatInputRequest>) {
        requests_of(take_queued(&self.receiver))
    }

    /// Drains the channel into the session: the inputs that were waiting are
    /// handed to the session in the order in which they came, and come back
    /// together with the action for each.
    pub fn feed(&self, session: ChatSession) -> (r: (ChatSession, Vec<ChatInputRequest>, Vec<SessionAction>))
        ensures
            r.2.len() == r.1.len(),
            (r.0@, actions_view(r.2@)) == after_inputs(session@, input_texts(r.1@)),
    {
        let requests = self.drain();
        let (next, actions) = session.chat_reader(&requests);
        proof {
            assert(actions_view(actions@).len() == actions.len());
            crate::network::inputs_give_one_action_each(session@, input_texts(requests@));
        }
        (next, requests, actions)
    }
}

} // verus!
