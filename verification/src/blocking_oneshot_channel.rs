//! A one-shot channel whose sender knows whom to wake.
//!
//! `split` resets the channel and issues one `Sender` and one `Receiver`;
//! the sender remembers the thread that split. `send` publishes the message
//! and names that thread, which the caller then resumes. A receiver that
//! finds nothing gets its handle back and asks again after each resume,
//! whatever caused it. The receiver stays on the thread that split: it
//! cannot be sent to another.
//!
//! Each handle serves once. The channel keeps, for the proofs only, the
//! number of the split and which of the two handles of that split are still
//! out: a handle serves the split that issued it, and a later `split`
//! outdates it. A handle holds no reference to the channel: each step is
//! given the channel that the handle came from.

use vstd::prelude::*;
use std::marker::PhantomData;
use std::rc::Rc;

verus! {

/// What a channel is: whether a message is ready, what its slot holds, how
/// often it was split, and which handles of the latest split are still out.
pub struct ChannelView<T> {
    pub ready: bool,
    pub message: Option<T>,
    pub splits: nat,
    pub sender_out: bool,
    pub receiver_out: bool,
}

impl<T> ChannelView<T> {
    /// A channel nobody has used: it has issued no handle.
    pub open spec fn fresh() -> Self {
        ChannelView {
            ready: false,
            message: None,
            splits: 0,
            sender_out: false,
            receiver_out: false,
        }
    }

    /// The slot is filled exactly while the channel is ready, and the
    /// channel is ready only between the send and the receive of a handoff:
    /// the sender is used up and the receiver is not. The receiver is not
    /// used up before the sender.
    pub open spec fn wf(self) -> bool {
        &&& self.message is Some <==> self.ready
        &&& self.ready ==> !self.sender_out && self.receiver_out
        &&& self.sender_out ==> self.receiver_out
    }

    /// The channel after it was reset for a new pair of handles.
    pub open spec fn split(self) -> Self {
        ChannelView {
            ready: false,
            message: None,
            splits: self.splits + 1,
            sender_out: true,
            receiver_out: true,
        }
    }

    /// Whether the sender issued by split number `split` may send: it is of
    /// the latest split and has not sent.
    pub open spec fn can_send(self, split: nat) -> bool {
        self.sender_out && self.splits == split
    }

    /// Whether the receiver issued by split number `split` may ask: it is of
    /// the latest split and has not received.
    pub open spec fn can_poll(self, split: nat) -> bool {
        self.receiver_out && self.splits == split
    }

    /// Whether the receiver issued by split number `split` may receive: it
    /// may ask, and a message is ready.
    pub open spec fn can_receive(self, split: nat) -> bool {
        self.can_poll(split) && self.ready
    }

    /// The channel after `message` was sent into it.
    pub open spec fn send(self, message: T) -> Self {
        ChannelView {
            ready: true,
            message: Some(message),
            splits: self.splits,
            sender_out: false,
            receiver_out: self.receiver_out,
        }
    }

    /// The message that a receiver gets.
    pub open spec fn received(self) -> T
        recommends
            self.message is Some,
    {
        self.message->0
    }

    /// The channel after its message was taken out.
    pub open spec fn receive(self) -> Self {
        ChannelView {
            ready: false,
            message: None,
            splits: self.splits,
            sender_out: self.sender_out,
            receiver_out: false,
        }
    }

    /// The channel after one turn of the receiver's wait: as it was if
    /// nothing is ready, and else with the message taken out.
    pub open spec fn try_receive(self) -> Self {
        if self.ready {
            self.receive()
        } else {
            self
        }
    }

    /// The channel after `turns` turns of the receiver's wait.
    pub open spec fn wait(self, turns: nat) -> Self
        decreases turns,
    {
        if turns == 0 {
            self
        } else {
            self.try_receive().wait((turns - 1) as nat)
        }
    }

    /// The message that is destroyed with the channel: the one that was sent
    /// and never received, if there is one.
    pub open spec fn unread(self) -> Option<T> {
        if self.ready {
            self.message
        } else {
            None
        }
    }
}

/// The state that the two handles of a handoff work on.
pub struct Channel<T> {
    message: Option<T>,
    ready: bool,
    splits: Ghost<nat>,
    sender_out: Ghost<bool>,
    receiver_out: Ghost<bool>,
}

/// The right to send one message into the channel that issued it, and the
/// name of the thread that waits for it.
pub struct Sender<T> {
    split: Ghost<nat>,
    receiving_thread: u64,
    channel: PhantomData<T>,
}

/// The right to receive one message from the channel that issued it.
pub struct Receiver<T> {
    split: Ghost<nat>,
    channel: PhantomData<T>,
    no_send: PhantomData<Rc<()>>,
}

impl<T> View for Channel<T> {
    type V = ChannelView<T>;

    closed spec fn view(&self) -> ChannelView<T> {
        ChannelView {
            ready: self.ready,
            message: self.message,
            splits: self.splits@,
            sender_out: self.sender_out@,
            receiver_out: self.receiver_out@,
        }
    }
}

impl<T> Channel<T> {
    #[verifier::type_invariant]
    spec fn inv(&self) -> bool {
        self@.wf()
    }

    /// A channel that is still to be split.
    pub fn new() -> (channel: Self)
        ensures
            channel@ == ChannelView::<T>::fresh(),
    {
        Channel {
            message: None,
            ready: false,
            splits: Ghost(0),
            sender_out: Ghost(false),
            receiver_out: Ghost(false),
        }
    }

    /// Resets the channel and issues the two handles of a new handoff, on
    /// behalf of the thread `current_thread`, which is the one that will
    /// receive. A message left unread from an earlier handoff is destroyed
    /// here, and the handles of that handoff serve no longer.
    pub fn split(&mut self, current_thread: u64) -> (handles: (Sender<T>, Receiver<T>))
        ensures
            final(self)@ == old(self)@.split(),
            final(self)@.can_send(handles.0.split()),
            final(self)@.can_poll(handles.1.split()),
            handles.0.receiving_thread() == current_thread,
    {
        let ghost split = self.splits@ + 1;
        *self = Channel {
            message: None,
            ready: false,
            splits: Ghost(split),
            sender_out: Ghost(true),
            receiver_out: Ghost(true),
        };
        (
            Sender { split: Ghost(split), receiving_thread: current_thread, channel: PhantomData },
            Receiver { split: Ghost(split), channel: PhantomData, no_send: PhantomData },
        )
    }

    /// Tears the channel down and hands out what has to be destroyed with it:
    /// the message that was sent and never received. A channel that holds no
    /// such message gives nothing.
    pub fn drop(self) -> (unread: Option<T>)
        ensures
            unread == self@.unread(),
    {
        if self.ready {
            self.message
        } else {
            None
        }
    }
}

impl<T> Sender<T> {
    /// The number of the split that issued this handle.
    pub closed spec fn split(&self) -> nat {
        self.split@
    }

    /// The thread that split the channel and waits for the message.
    pub closed spec fn receiving_thread(&self) -> u64 {
        self.receiving_thread
    }

    /// Hands `message` to the channel and uses the handle up. Returns the
    /// thread to resume now that the message is published.
    pub fn send(self, channel: &mut Channel<T>, message: T) -> (wake: u64)
        requires
            old(channel)@.can_send(self.split()),
        ensures
            final(channel)@ == old(channel)@.send(message),
            wake == self.receiving_thread(),
    {
        proof {
            use_type_invariant(&*channel);
        }
        *channel = Channel {
            message: Some(message),
            ready: true,
            splits: channel.splits,
            sender_out: Ghost(false),
            receiver_out: channel.receiver_out,
        };
        self.receiving_thread
    }
}

impl<T> Receiver<T> {
    /// The number of the split that issued this handle.
    pub closed spec fn split(&self) -> nat {
        self.split@
    }

    /// Whether the message is there to be received.
    pub fn is_ready(&self, channel: &Channel<T>) -> (ready: bool)
        requires
            channel@.can_poll(self.split()),
        ensures
            ready == channel@.can_receive(self.split()),
    {
        channel.ready
    }

    /// One turn of the wait for the message: takes it out if it is ready,
    /// and else gives the handle back, for the caller to suspend its thread
    /// and to ask again once it is resumed.
    pub fn try_receive(self, channel: &mut Channel<T>) -> (turn: Result<T, Receiver<T>>)
        requires
            old(channel)@.can_poll(self.split()),
        ensures
            final(channel)@ == old(channel)@.try_receive(),
            match turn {
                Ok(message) => old(channel)@.ready && message == old(channel)@.received(),
                Err(receiver) => !old(channel)@.ready && receiver.split() == self.split(),
            },
    {
        if channel.ready {
            Ok(self.receive(channel))
        } else {
            Err(self)
        }
    }

    /// Takes the message out and uses the handle up. The caller receives
    /// only when the message is ready: until then the receiving thread
    /// waits, one `try_receive` for each time it is resumed.
    pub fn receive(self, channel: &mut Channel<T>) -> (message: T)
        requires
            old(channel)@.can_receive(self.split()),
        ensures
            message == old(channel)@.received(),
            final(channel)@ == old(channel)@.receive(),
    {
        proof {
            use_type_invariant(&*channel);
        }
        let mut claimed = Channel {
            message: None,
            ready: false,
            splits: channel.splits,
            sender_out: channel.sender_out,
            receiver_out: Ghost(false),
        };
        std::mem::swap(channel, &mut claimed);
        claimed.message.unwrap()
    }
}

impl<T> Default for Channel<T> where T: Default {
    fn default() -> (channel: Self)
        ensures
            channel@ == ChannelView::<T>::fresh(),
    {
        Self::new()
    }
}

/// A message that is sent is the message that is received: after the send
/// of a handoff its receiver may receive, and what it gets is what the
/// sender gave.
pub proof fn send_then_receive_returns_the_message<T>(channel: ChannelView<T>, message: T)
    ensures
        channel.split().can_send(channel.split().splits),
        channel.split().send(message).can_receive(channel.split().splits),
        channel.split().send(message).received() == message,
{
}

/// Waiting changes nothing: however often the receiver asks before the
/// send, it finds the channel as the split left it, and the turn after the
/// send finds the message that was sent.
pub proof fn waiting_changes_nothing<T>(channel: ChannelView<T>, turns: nat, message: T)
    ensures
        channel.split().wait(turns) == channel.split(),
        channel.split().wait(turns).send(message).ready,
        channel.split().wait(turns).send(message).received() == message,
    decreases turns,
{
    if turns > 0 {
        waiting_changes_nothing(channel, (turns - 1) as nat, message);
    }
}

/// Each handle serves once: after the send no sender may send, and after
/// the receive no receiver may receive, whatever split issued it.
pub proof fn handles_serve_once<T>(channel: ChannelView<T>, message: T, split: nat)
    ensures
        !channel.send(message).can_send(split),
        !channel.receive().can_poll(split),
        !channel.receive().can_receive(split),
{
}

/// There is nothing to receive before the send of a handoff: not on a
/// channel that was never split, and not after a split.
pub proof fn nothing_to_receive_before_the_send<T>(channel: ChannelView<T>, split: nat)
    ensures
        !ChannelView::<T>::fresh().can_receive(split),
        !channel.split().can_receive(split),
{
}

/// A split outdates every handle issued before it.
pub proof fn split_outdates_earlier_handles<T>(channel: ChannelView<T>, split: nat)
    requires
        split <= channel.splits,
    ensures
        !channel.split().can_send(split),
        !channel.split().can_poll(split),
{
}

/// Tearing a channel down destroys the message that was sent and not
/// received, and nothing else: a channel nobody sent into gives nothing, and
/// a message that was received is not given a second time.
pub proof fn teardown_destroys_what_is_unread<T>(channel: ChannelView<T>, message: T)
    ensures
        ChannelView::<T>::fresh().unread() is None,
        channel.split().unread() is None,
        channel.send(message).unread() == Some(message),
        channel.send(message).receive().unread() is None,
{
}

/// Every step keeps the channel well formed, so a send never finds a
/// message in the slot.
pub proof fn steps_keep_the_channel_well_formed<T>(
    channel: ChannelView<T>,
    message: T,
    split: nat,
)
    requires
        channel.wf(),
    ensures
        ChannelView::<T>::fresh().wf(),
        channel.split().wf(),
        channel.can_send(split) ==> channel.message is None && channel.send(message).wf(),
        channel.can_receive(split) ==> channel.receive().wf(),
{
}

/// One step in the life of a channel: a split, or the step of a handle,
/// which is known by the number of the split that issued it. A sender sends;
/// a receiver receives, or asks for it.
pub enum Step<T> {
    Split,
    Send(nat, T),
    Receive(nat),
    Poll(nat),
}

/// Whether `step` may be taken on `channel`.
pub open spec fn allows<T>(channel: ChannelView<T>, step: Step<T>) -> bool {
    match step {
        Step::Split => true,
        Step::Send(sender, _) => channel.can_send(sender),
        Step::Receive(receiver) => channel.can_receive(receiver),
        Step::Poll(receiver) => channel.can_poll(receiver),
    }
}

/// What `step` makes of `channel`.
pub open spec fn after<T>(channel: ChannelView<T>, step: Step<T>) -> ChannelView<T> {
    match step {
        Step::Split => channel.split(),
        Step::Send(_, message) => channel.send(message),
        Step::Receive(_) => channel.receive(),
        Step::Poll(_) => channel.try_receive(),
    }
}

/// Whether `steps` may be taken on `channel` one after another.
pub open spec fn allows_all<T>(channel: ChannelView<T>, steps: Seq<Step<T>>) -> bool
    decreases steps.len(),
{
    steps.len() == 0 || (allows(channel, steps[0]) && allows_all(
        after(channel, steps[0]),
        steps.drop_first(),
    ))
}

/// What `steps` make of `channel`.
pub open spec fn after_all<T>(channel: ChannelView<T>, steps: Seq<Step<T>>) -> ChannelView<T>
    decreases steps.len(),
{
    if steps.len() == 0 {
        channel
    } else {
        after_all(after(channel, steps[0]), steps.drop_first())
    }
}

/// The messages that `steps` send, in their order.
pub open spec fn sent<T>(steps: Seq<Step<T>>) -> Seq<T>
    decreases steps.len(),
{
    if steps.len() == 0 {
        Seq::empty()
    } else {
        match steps[0] {
            Step::Send(_, message) => seq![message] + sent(steps.drop_first()),
            _ => sent(steps.drop_first()),
        }
    }
}

/// The messages that go with `channel` when it is reset or torn down.
pub open spec fn left_unread<T>(channel: ChannelView<T>) -> Seq<T> {
    match channel.unread() {
        Some(message) => seq![message],
        None => Seq::empty(),
    }
}

/// The messages that leave the channel in the course of `steps`, in their
/// order: those that a receiver gets, and those that a split finds unread
/// and destroys.
pub open spec fn departed<T>(channel: ChannelView<T>, steps: Seq<Step<T>>) -> Seq<T>
    decreases steps.len(),
{
    if steps.len() == 0 {
        Seq::empty()
    } else {
        let rest = departed(after(channel, steps[0]), steps.drop_first());
        match steps[0] {
            Step::Split => left_unread(channel) + rest,
            Step::Send(_, _) => rest,
            Step::Receive(_) => seq![channel.received()] + rest,
            Step::Poll(_) => left_unread(channel) + rest,
        }
    }
}

/// Every message leaves the channel once. Whatever steps are taken on a
/// well-formed channel, what waits unread in it and what is sent into it,
/// in that order, is what leaves it and what is left unread at the end:
/// no message is lost, none leaves twice, and none overtakes another.
pub proof fn every_message_leaves_once<T>(channel: ChannelView<T>, steps: Seq<Step<T>>)
    requires
        channel.wf(),
        allows_all(channel, steps),
    ensures
        after_all(channel, steps).wf(),
        left_unread(channel) + sent(steps) == departed(channel, steps) + left_unread(
            after_all(channel, steps),
        ),
    decreases steps.len(),
{
    if steps.len() > 0 {
        every_message_leaves_once(after(channel, steps[0]), steps.drop_first());
    }
}

} // verus!
