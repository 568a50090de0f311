//! A channel that is a queue: it takes any number of messages and gives
//! them out in the order in which they came. It is the loose relative of the
//! one-shot channels, and shares nothing with them.

use vstd::prelude::*;
use std::collections::VecDeque;

verus! {

/// The queue of the messages that wait.
pub struct Channel<T> {
    queue: VecDeque<T>,
}

impl<T> View for Channel<T> {
    type V = Seq<T>;

    /// The messages that wait in the channel, oldest first.
    closed spec fn view(&self) -> Seq<T> {
        self.queue@
    }
}

impl<T> Channel<T> {
    /// A channel in which nothing waits.
    pub fn new() -> (channel: Self)
        ensures
            channel@ == Seq::<T>::empty(),
    {
        Channel { queue: VecDeque::new() }
    }

    /// Puts `message` behind the messages that wait.
    pub fn send(&mut self, message: T)
        ensures
            final(self)@ == old(self)@.push(message),
    {
        self.queue.push_back(message);
    }

    /// One turn of the wait for a message: takes the oldest one out if one
    /// waits, and else gives nothing, for the caller to sleep and to ask
    /// again.
    pub fn try_receive(&mut self) -> (turn: Option<T>)
        ensures
            match turn {
                Some(message) => {
                    &&& old(self)@.len() > 0
                    &&& message == old(self)@.first()
                    &&& final(self)@ == old(self)@.drop_first()
                },
                None => {
                    &&& old(self)@.len() == 0
                    &&& final(self)@ == old(self)@
                },
            },
    {
        self.queue.pop_front()
    }

    /// Takes the oldest message out. The caller receives only while a
    /// message waits: until then it sleeps, one `try_receive` for each time
    /// it wakes.
    pub fn receive(&mut self) -> (message: T)
        requires
            old(self)@.len() > 0,
        ensures
            message == old(self)@.first(),
            final(self)@ == old(self)@.drop_first(),
    {
        self.try_receive().unwrap()
    }
}

/// The messages that wait once `messages` were sent, one after another, into
/// a channel in which `waiting` waited.
pub open spec fn after_sends<T>(waiting: Seq<T>, messages: Seq<T>) -> Seq<T>
    decreases messages.len(),
{
    if messages.len() == 0 {
        waiting
    } else {
        after_sends(waiting.push(messages.first()), messages.drop_first())
    }
}

/// What `count` receives, one after another, take out of a channel in which
/// `waiting` wait.
pub open spec fn received_by<T>(waiting: Seq<T>, count: nat) -> Seq<T>
    recommends
        count <= waiting.len(),
    decreases count,
{
    if count == 0 {
        Seq::empty()
    } else {
        seq![waiting.first()] + received_by(waiting.drop_first(), (count - 1) as nat)
    }
}

/// Sending adds at the back, whatever waits already.
pub proof fn sends_queue_up<T>(waiting: Seq<T>, messages: Seq<T>)
    ensures
        after_sends(waiting, messages) == waiting + messages,
    decreases messages.len(),
{
    if messages.len() > 0 {
        sends_queue_up(waiting.push(messages.first()), messages.drop_first());
    }
}

/// Receiving takes from the front: `count` receives take the first `count`
/// of the messages that wait, in their order.
pub proof fn receives_take_the_oldest<T>(waiting: Seq<T>, count: nat)
    requires
        count <= waiting.len(),
    ensures
        received_by(waiting, count) == waiting.subrange(0, count as int),
    decreases count,
{
    if count > 0 {
        receives_take_the_oldest(waiting.drop_first(), (count - 1) as nat);
    }
}

/// First in, first out: what is sent into an empty channel comes out in the
/// order in which it went in.
pub proof fn messages_arrive_in_the_order_sent<T>(messages: Seq<T>)
    ensures
        received_by(after_sends(Seq::empty(), messages), messages.len()) == messages,
{
    sends_queue_up(Seq::empty(), messages);
    receives_take_the_oldest(messages, messages.len());
}

} // verus!
