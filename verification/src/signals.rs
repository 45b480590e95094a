//! The messages that drive the supervisor, and the queue that carries them.

use std::collections::VecDeque;
use vstd::prelude::*;

verus! {

/// An order to the supervisor.
#[derive(Debug)]
pub enum Message {
    /// Leave the loop: the daemon shuts down.
    Shutdown,
    /// Start the unit of this name.
    Start(String),
    /// Stop the unit of this name.
    Stop(String),
    /// Stop the unit of this name, then start it.
    Restart(String),
}

/// The queue between those who give orders and the supervisor. Messages leave in
/// the order they came in; none is dropped, merged or moved ahead.
#[derive(Debug)]
pub struct ControlChannel {
    queue: VecDeque<Message>,
}

impl View for ControlChannel {
    type V = Seq<Message>;

    closed spec fn view(&self) -> Seq<Message> {
        self.queue@
    }
}

impl ControlChannel {
    /// An empty queue.
    pub fn new() -> (channel: ControlChannel)
        ensures
            channel@ == Seq::<Message>::empty(),
    {
        ControlChannel { queue: VecDeque::new() }
    }

    /// The number of messages that wait.
    pub fn len(&self) -> (n: usize)
        ensures
            n == self@.len(),
    {
        self.queue.len()
    }

    /// Puts a message at the end of the queue.
    pub fn send(&mut self, msg: Message)
        ensures
            final(self)@ == old(self)@.push(msg),
    {
        self.queue.push_back(msg);
    }

    /// Takes the oldest message, if there is one.
    pub fn recv(&mut self) -> (msg: Option<Message>)
        ensures
            match msg {
                Some(m) => old(self)@.len() > 0 && m == old(self)@[0] && final(self)@ == old(
                    self,
                )@.drop_first(),
                None => old(self)@.len() == 0 && final(self)@ == old(self)@,
            },
    {
        let msg = self.queue.pop_front();
        proof {
            if msg is Some {
                assert(self.queue@ =~= old(self).queue@.drop_first());
            } else {
                assert(self.queue@ =~= old(self).queue@);
            }
        }
        msg
    }
}

/// Hands an order to the supervisor: it is queued behind all that wait.
pub fn signal_daemon(channel: &mut ControlChannel, msg: Message)
    ensures
        final(channel)@ == old(channel)@.push(msg),
{
    channel.send(msg);
}

/// Messages are delivered in the order they were sent: what was sent stands
/// behind what waited, message for message, and nothing stands between.
pub proof fn lemma_channel_is_fifo(waiting: Seq<Message>, sent: Seq<Message>)
    ensures
        (waiting + sent).len() == waiting.len() + sent.len(),
        forall|i: int| 0 <= i < waiting.len() ==> (waiting + sent)[i] == waiting[i],
        forall|i: int| 0 <= i < sent.len() ==> (waiting + sent)[waiting.len() + i] == sent[i],
{
}

} // verus!
