//! A one-shot channel whose whole state is one byte.
//!
//! The byte walks through `Empty -> Writing -> Ready -> Reading` and never
//! back. A send is two steps: it claims the slot by taking the byte from
//! `Empty` to `Writing`, and it publishes the message by filling the slot
//! and taking the byte on to `Ready`. Between the two the channel refuses
//! every other sender and has nothing for a receiver. A receive claims the
//! message by taking the byte from `Ready` to `Reading`. The slot holds a
//! message exactly while the state is `Ready`, so each message leaves the
//! channel once: to the receiver, or to whoever tears the channel down.

use vstd::prelude::*;

verus! {

/// The state byte of `State::Empty`.
pub const EMPTY: u8 = 0;

/// The state byte of `State::Writing`.
pub const WRITING: u8 = 1;

/// The state byte of `State::Ready`.
pub const READY: u8 = 2;

/// The state byte of `State::Reading`.
pub const READING: u8 = 3;

/// The phase of the handoff.
#[derive(Clone, Copy, Debug, PartialEq, Eq, Structural)]
pub enum State {
    /// Nothing was sent yet.
    Empty,
    /// A sender has claimed the slot and is filling it.
    Writing,
    /// A message waits in the slot.
    Ready,
    /// The receiver has claimed the message. This is where a channel that
    /// has done its work stays.
    Reading,
}

impl State {
    /// How far the handoff has come.
    pub open spec fn rank(self) -> nat {
        match self {
            State::Empty => 0,
            State::Writing => 1,
            State::Ready => 2,
            State::Reading => 3,
        }
    }
}

/// What a channel is: its phase and what its slot holds.
pub struct ChannelView<T> {
    pub state: State,
    pub message: Option<T>,
}

impl<T> ChannelView<T> {
    /// A channel nobody has used.
    pub open spec fn fresh() -> Self {
        ChannelView { state: State::Empty, message: None }
    }

    /// The slot is filled exactly while a message is ready.
    pub open spec fn wf(self) -> bool {
        self.message is Some <==> self.state == State::Ready
    }

    /// Sending is allowed once, on a channel nobody has sent into.
    pub open spec fn can_send(self) -> bool {
        self.state == State::Empty
    }

    /// Receiving is allowed while a message is ready.
    pub open spec fn can_receive(self) -> bool {
        self.state == State::Ready
    }

    /// The channel after a sender has claimed its slot.
    pub open spec fn claim(self) -> Self {
        ChannelView { state: State::Writing, message: self.message }
    }

    /// The channel after an attempt to claim its slot: claimed if it could
    /// be sent into, and else as it was.
    pub open spec fn try_claim(self) -> Self {
        if self.can_send() {
            self.claim()
        } else {
            self
        }
    }

    /// Publishing is for the sender that has claimed the slot.
    pub open spec fn can_publish(self) -> bool {
        self.state == State::Writing
    }

    /// The channel after the sender that claimed its slot has put `message`
    /// there.
    pub open spec fn publish(self, message: T) -> Self {
        ChannelView { state: State::Ready, message: Some(message) }
    }

    /// The channel after `message` was sent into it: claimed, then
    /// published.
    pub open spec fn send(self, message: T) -> Self {
        self.claim().publish(message)
    }

    /// The message that a receiver gets.
    pub open spec fn received(self) -> T
        recommends
            self.message is Some,
    {
        self.message->0
    }

    /// The channel after its message was taken out.
    pub open spec fn receive(self) -> Self {
        ChannelView { state: State::Reading, message: None }
    }

    /// The message that is destroyed with the channel: the one that was sent
    /// and never received, if there is one.
    pub open spec fn unread(self) -> Option<T> {
        if self.state == State::Ready {
            self.message
        } else {
            None
        }
    }
}

/// The phase that a state byte stands for.
pub open spec fn state_of(byte: u8) -> State {
    if byte == EMPTY {
        State::Empty
    } else if byte == WRITING {
        State::Writing
    } else if byte == READY {
        State::Ready
    } else {
        State::Reading
    }
}

/// A slot for one message and the byte that tells how far its handoff has
/// come.
pub struct Channel<T> {
    message: Option<T>,
    state: u8,
}

impl<T> View for Channel<T> {
    type V = ChannelView<T>;

    closed spec fn view(&self) -> ChannelView<T> {
        ChannelView { state: state_of(self.state), message: self.message }
    }
}

impl<T> Channel<T> {
    #[verifier::type_invariant]
    spec fn inv(&self) -> bool {
        &&& self.state <= READING
        &&& self.message is Some <==> self.state == READY
    }

    /// A channel that is still to be used.
    pub fn new() -> (channel: Self)
        ensures
            channel@ == ChannelView::<T>::fresh(),
    {
        Channel { message: None, state: EMPTY }
    }

    /// The first step of a send: claims the slot if the channel is empty.
    /// Tells whether it did; a channel that is not empty stays as it is.
    pub fn try_claim(&mut self) -> (claimed: bool)
        ensures
            claimed == old(self)@.can_send(),
            final(self)@ == old(self)@.try_claim(),
    {
        proof {
            use_type_invariant(&*self);
        }
        if self.state == EMPTY {
            self.state = WRITING;
            true
        } else {
            false
        }
    }

    /// The second step of a send: fills the slot and makes the message
    /// ready. It is for the sender whose claim has won.
    pub fn publish(&mut self, message: T)
        requires
            old(self)@.can_publish(),
        ensures
            final(self)@ == old(self)@.publish(message),
    {
        *self = Channel { message: Some(message), state: READY };
    }

    /// Hands `message` to the channel: claims the slot and publishes. A
    /// channel takes one message in its life: the caller sends only into a
    /// channel that is still empty.
    pub fn send(&mut self, message: T)
        requires
            old(self)@.can_send(),
        ensures
            final(self)@ == old(self)@.send(message),
    {
        // The claim wins, since the channel is empty.
        self.try_claim();
        self.publish(message);
    }

    /// Whether the message is there to be received.
    pub fn is_ready(&self) -> (ready: bool)
        ensures
            ready == self@.can_receive(),
    {
        self.state == READY
    }

    /// The phase the channel is in.
    pub fn state(&self) -> (state: State)
        ensures
            state == self@.state,
    {
        proof {
            use_type_invariant(self);
        }
        if self.state == EMPTY {
            State::Empty
        } else if self.state == WRITING {
            State::Writing
        } else if self.state == READY {
            State::Ready
        } else {
            State::Reading
        }
    }

    /// Takes the message out. The caller receives only from a channel whose
    /// message is ready, which `is_ready` tells.
    pub fn receive(&mut self) -> (message: T)
        requires
            old(self)@.can_receive(),
        ensures
            message == old(self)@.received(),
            final(self)@ == old(self)@.receive(),
    {
        proof {
            use_type_invariant(&*self);
        }
        // Claim the message and empty the slot at once.
        let mut claimed = Channel { message: None, state: READING };
        std::mem::swap(self, &mut claimed);
        claimed.message.unwrap()
    }

    /// Tears the channel down and hands out what has to be destroyed with it:
    /// the message that was sent and never received. A channel that holds no
    /// such message gives nothing.
    pub fn drop(self) -> (unread: Option<T>)
        ensures
            unread == self@.unread(),
    {
        if self.state == READY {
            self.message
        } else {
            None
        }
    }
}

impl<T> Default for Channel<T> where T: Default {
    fn default() -> (channel: Self)
        ensures
            channel@ == ChannelView::<T>::fresh(),
    {
        Self::new()
    }
}

/// A message that is sent is the message that is received: after a send the
/// channel is ready, and what the receiver gets is what the sender gave.
pub proof fn send_then_receive_returns_the_message<T>(channel: ChannelView<T>, message: T)
    requires
        channel.can_send(),
    ensures
        channel.send(message).can_receive(),
        channel.send(message).received() == message,
{
}

/// A channel is sent into once: neither after the send nor after the receive
/// that follows it may anyone send again, and an attempt to claim the slot
/// then fails and changes nothing.
pub proof fn send_is_allowed_once<T>(channel: ChannelView<T>, message: T)
    ensures
        !channel.send(message).can_send(),
        !channel.send(message).receive().can_send(),
        channel.send(message).try_claim() == channel.send(message),
        channel.send(message).receive().try_claim() == channel.send(message).receive(),
{
}

/// While one sender fills the slot the channel refuses every other sender
/// and has nothing for a receiver.
pub proof fn claimed_slot_is_the_claimers<T>(channel: ChannelView<T>)
    requires
        channel.can_send(),
    ensures
        channel.claim().can_publish(),
        !channel.claim().can_send(),
        !channel.claim().can_receive(),
        channel.claim().try_claim() == channel.claim(),
{
}

/// There is nothing to receive before a send, and nothing after the message
/// was received.
pub proof fn receive_is_allowed_once_after_a_send<T>(channel: ChannelView<T>, message: T)
    ensures
        !ChannelView::<T>::fresh().can_receive(),
        !channel.send(message).receive().can_receive(),
{
}

/// The handoff only moves forward: a send and a receive each leave the
/// channel in a later phase than they found it, so the slot is written once
/// and read once.
pub proof fn steps_only_advance<T>(channel: ChannelView<T>, message: T)
    ensures
        channel.can_send() ==> channel.claim().state.rank() > channel.state.rank(),
        channel.can_publish() ==> channel.publish(message).state.rank() > channel.state.rank(),
        channel.can_receive() ==> channel.receive().state.rank() > channel.state.rank(),
        channel.try_claim().state.rank() >= channel.state.rank(),
{
}

/// Every step keeps the channel well formed.
pub proof fn steps_keep_the_channel_well_formed<T>(channel: ChannelView<T>, message: T)
    requires
        channel.wf(),
    ensures
        ChannelView::<T>::fresh().wf(),
        channel.try_claim().wf(),
        channel.publish(message).wf(),
        channel.receive().wf(),
{
}

/// Tearing a channel down destroys the message that was sent and not
/// received, and nothing else: a channel nobody sent into gives nothing, and
/// a message that was received is not given a second time.
pub proof fn teardown_destroys_what_is_unread<T>(channel: ChannelView<T>, message: T)
    ensures
        ChannelView::<T>::fresh().unread() is None,
        channel.send(message).unread() == Some(message),
        channel.send(message).receive().unread() is None,
{
}

/// One step in the life of a channel: an attempt to claim the slot, the
/// publishing of a message by the sender that has claimed it, or a receive.
pub enum Step<T> {
    TryClaim,
    Publish(T),
    Receive,
}

/// Whether `step` may be taken on `channel`.
pub open spec fn allows<T>(channel: ChannelView<T>, step: Step<T>) -> bool {
    match step {
        Step::TryClaim => true,
        Step::Publish(_) => channel.can_publish(),
        Step::Receive => channel.can_receive(),
    }
}

/// What `step` makes of `channel`.
pub open spec fn after<T>(channel: ChannelView<T>, step: Step<T>) -> ChannelView<T> {
    match step {
        Step::TryClaim => channel.try_claim(),
        Step::Publish(message) => channel.publish(message),
        Step::Receive => channel.receive(),
    }
}

/// Whether `steps` may be taken on `channel` one after another.
pub open spec fn allows_all<T>(channel: ChannelView<T>, steps: Seq<Step<T>>) -> bool
    decreases steps.len(),
{
    steps.len() == 0 || (allows(channel, steps[0]) && allows_all(
        after(channel, steps[0]),
        steps.drop_first(),
    ))
}

/// What `steps` make of `channel`.
pub open spec fn after_all<T>(channel: ChannelView<T>, steps: Seq<Step<T>>) -> ChannelView<T>
    decreases steps.len(),
{
    if steps.len() == 0 {
        channel
    } else {
        after_all(after(channel, steps[0]), steps.drop_first())
    }
}

/// The messages that `steps` publish, in their order.
pub open spec fn sent<T>(steps: Seq<Step<T>>) -> Seq<T>
    decreases steps.len(),
{
    if steps.len() == 0 {
        Seq::empty()
    } else {
        match steps[0] {
            Step::Publish(message) => seq![message] + sent(steps.drop_first()),
            _ => sent(steps.drop_first()),
        }
    }
}

/// The messages that the receives among `steps` get, in their order.
pub open spec fn delivered<T>(channel: ChannelView<T>, steps: Seq<Step<T>>) -> Seq<T>
    decreases steps.len(),
{
    if steps.len() == 0 {
        Seq::empty()
    } else {
        let rest = delivered(after(channel, steps[0]), steps.drop_first());
        match steps[0] {
            Step::Receive => seq![channel.received()] + rest,
            _ => rest,
        }
    }
}

/// The messages that go with `channel` when it is torn down.
pub open spec fn left_unread<T>(channel: ChannelView<T>) -> Seq<T> {
    match channel.unread() {
        Some(message) => seq![message],
        None => Seq::empty(),
    }
}

/// Whatever steps are taken on a well-formed channel, what waits unread in
/// it and what is sent into it is what the receives get and what is left
/// unread at the end, and a channel that cannot be sent into is not sent
/// into.
proof fn messages_are_kept<T>(channel: ChannelView<T>, steps: Seq<Step<T>>)
    requires
        channel.wf(),
        allows_all(channel, steps),
    ensures
        after_all(channel, steps).wf(),
        left_unread(channel) + sent(steps) == delivered(channel, steps) + left_unread(
            after_all(channel, steps),
        ),
        !channel.can_send() && !channel.can_publish() ==> sent(steps).len() == 0,
        sent(steps).len() <= 1,
    decreases steps.len(),
{
    if steps.len() > 0 {
        messages_are_kept(after(channel, steps[0]), steps.drop_first());
    }
}

/// Every message leaves the channel once. Whatever steps are taken on a new
/// channel, and however the attempts of several senders fall between them,
/// at most one message is published, and it is received once or is left to
/// be destroyed with the channel: never both, and never neither.
pub proof fn every_message_leaves_once<T>(steps: Seq<Step<T>>)
    requires
        allows_all(ChannelView::<T>::fresh(), steps),
    ensures
        sent(steps).len() <= 1,
        sent(steps) == delivered(ChannelView::<T>::fresh(), steps) + left_unread(
            after_all(ChannelView::<T>::fresh(), steps),
        ),
{
    messages_are_kept(ChannelView::<T>::fresh(), steps);
}

} // verus!
