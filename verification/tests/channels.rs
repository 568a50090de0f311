use std::cell::Cell;
use std::rc::Rc;

use sync_primitives::blocking_oneshot_channel;
use sync_primitives::mem_opt_oneshot_channel;
use sync_primitives::mem_opt_oneshot_channel::State;
use sync_primitives::naive_channel;
use sync_primitives::oneshot_channel;
use sync_primitives::send_recv_oneshot_channel_noarc;

struct Counted {
    drops: Rc<Cell<usize>>,
}

impl Drop for Counted {
    fn drop(&mut self) {
        self.drops.set(self.drops.get() + 1);
    }
}

fn counted() -> (Counted, Rc<Cell<usize>>) {
    let drops = Rc::new(Cell::new(0));
    (Counted { drops: drops.clone() }, drops)
}

// The channel with two flags.

#[test]
fn oneshot_round_trip() {
    let mut channel = oneshot_channel::Channel::new();
    assert!(!channel.is_ready());
    assert!(!channel.is_in_use());
    channel.send("one shot channel");
    assert!(channel.is_ready());
    assert_eq!(channel.receive(), "one shot channel");
}

#[test]
fn oneshot_takes_one_send_and_one_receive() {
    let mut channel = oneshot_channel::Channel::new();
    channel.send(1u8);
    // A second send is not allowed, before the receive or after it.
    assert!(channel.is_in_use());
    assert_eq!(channel.receive(), 1);
    assert!(channel.is_in_use());
    // Nor is a second receive.
    assert!(!channel.is_ready());
}

#[test]
fn oneshot_send_in_two_steps() {
    let mut channel = oneshot_channel::Channel::new();
    assert!(channel.try_claim());
    // The sender is at work: no other sender gets in, and nothing is ready.
    assert!(channel.is_in_use());
    assert!(!channel.try_claim());
    assert!(!channel.is_ready());
    channel.publish(5u16);
    assert!(channel.is_ready());
    assert!(!channel.try_claim());
    assert_eq!(channel.receive(), 5);
    assert!(!channel.try_claim());
    assert!(!channel.is_ready());
}

#[test]
fn oneshot_second_sender_loses_and_changes_nothing() {
    let (message, drops) = counted();
    let mut channel = oneshot_channel::Channel::new();
    channel.send(message);
    assert!(!channel.try_claim());
    assert!(!channel.try_claim());
    assert!(channel.is_ready());
    assert_eq!(drops.get(), 0);
    drop(channel.receive());
    assert_eq!(drops.get(), 1);
}

#[test]
fn oneshot_claimed_and_never_published_destroys_nothing() {
    let mut channel: oneshot_channel::Channel<Counted> = oneshot_channel::Channel::new();
    assert!(channel.try_claim());
    assert!(channel.drop().is_none());
}

#[test]
fn oneshot_unread_message_is_destroyed_once() {
    let (message, drops) = counted();
    let mut channel = oneshot_channel::Channel::new();
    channel.send(message);
    assert_eq!(drops.get(), 0);
    let unread = channel.drop();
    assert!(unread.is_some());
    assert_eq!(drops.get(), 0);
    drop(unread);
    assert_eq!(drops.get(), 1);
}

#[test]
fn oneshot_unread_message_goes_with_the_channel() {
    let (message, drops) = counted();
    {
        let mut channel = oneshot_channel::Channel::new();
        channel.send(message);
        assert_eq!(drops.get(), 0);
    }
    assert_eq!(drops.get(), 1);
}

#[test]
fn oneshot_without_send_destroys_nothing() {
    let channel: oneshot_channel::Channel<Counted> = oneshot_channel::Channel::new();
    assert!(channel.drop().is_none());
    let channel: oneshot_channel::Channel<u8> = Default::default();
    assert!(!channel.is_ready());
    assert!(!channel.is_in_use());
}

#[test]
fn oneshot_received_message_is_not_destroyed_again() {
    let (message, drops) = counted();
    let mut channel = oneshot_channel::Channel::new();
    channel.send(message);
    let received = channel.receive();
    assert!(channel.drop().is_none());
    assert_eq!(drops.get(), 0);
    drop(received);
    assert_eq!(drops.get(), 1);
}

// The channel with one state byte.

#[test]
fn mem_opt_round_trip() {
    let mut channel = mem_opt_oneshot_channel::Channel::new();
    assert!(!channel.is_ready());
    assert_eq!(channel.state(), State::Empty);
    channel.send(7u32);
    assert!(channel.is_ready());
    assert_eq!(channel.state(), State::Ready);
    assert_eq!(channel.receive(), 7);
    assert!(!channel.is_ready());
    assert_eq!(channel.state(), State::Reading);
}

#[test]
fn mem_opt_state_bytes() {
    assert_eq!(mem_opt_oneshot_channel::EMPTY, 0);
    assert_eq!(mem_opt_oneshot_channel::WRITING, 1);
    assert_eq!(mem_opt_oneshot_channel::READY, 2);
    assert_eq!(mem_opt_oneshot_channel::READING, 3);
}

#[test]
fn mem_opt_takes_one_send_and_one_receive() {
    let mut channel = mem_opt_oneshot_channel::Channel::new();
    channel.send(String::from("m"));
    // Only an empty channel may be sent into.
    assert_ne!(channel.state(), State::Empty);
    assert_eq!(channel.receive(), "m");
    assert_ne!(channel.state(), State::Empty);
    // Only a ready channel may be received from.
    assert!(!channel.is_ready());
}

#[test]
fn mem_opt_send_in_two_steps() {
    let mut channel = mem_opt_oneshot_channel::Channel::new();
    assert!(channel.try_claim());
    // The sender is at work: no other sender gets in, and nothing is ready.
    assert_eq!(channel.state(), State::Writing);
    assert!(!channel.try_claim());
    assert_eq!(channel.state(), State::Writing);
    assert!(!channel.is_ready());
    channel.publish(5u16);
    assert_eq!(channel.state(), State::Ready);
    assert!(!channel.try_claim());
    assert_eq!(channel.state(), State::Ready);
    assert_eq!(channel.receive(), 5);
    assert!(!channel.try_claim());
    assert_eq!(channel.state(), State::Reading);
}

#[test]
fn mem_opt_second_sender_loses_and_changes_nothing() {
    let (message, drops) = counted();
    let mut channel = mem_opt_oneshot_channel::Channel::new();
    channel.send(message);
    assert!(!channel.try_claim());
    assert!(!channel.try_claim());
    assert!(channel.is_ready());
    assert_eq!(drops.get(), 0);
    drop(channel.receive());
    assert_eq!(drops.get(), 1);
}

#[test]
fn mem_opt_claimed_and_never_published_destroys_nothing() {
    let mut channel: mem_opt_oneshot_channel::Channel<Counted> =
        mem_opt_oneshot_channel::Channel::new();
    assert!(channel.try_claim());
    assert!(channel.drop().is_none());
}

#[test]
fn mem_opt_unread_message_is_destroyed_once() {
    let (message, drops) = counted();
    let mut channel = mem_opt_oneshot_channel::Channel::new();
    channel.send(message);
    let unread = channel.drop();
    assert!(unread.is_some());
    assert_eq!(drops.get(), 0);
    drop(unread);
    assert_eq!(drops.get(), 1);
}

#[test]
fn mem_opt_unread_message_goes_with_the_channel() {
    let (message, drops) = counted();
    {
        let mut channel = mem_opt_oneshot_channel::Channel::new();
        channel.send(message);
    }
    assert_eq!(drops.get(), 1);
}

#[test]
fn mem_opt_without_send_destroys_nothing() {
    let channel: mem_opt_oneshot_channel::Channel<Counted> =
        mem_opt_oneshot_channel::Channel::new();
    assert!(channel.drop().is_none());
    let channel: mem_opt_oneshot_channel::Channel<u8> = Default::default();
    assert_eq!(channel.state(), State::Empty);
}

#[test]
fn mem_opt_received_message_is_not_destroyed_again() {
    let (message, drops) = counted();
    let mut channel = mem_opt_oneshot_channel::Channel::new();
    channel.send(message);
    let received = channel.receive();
    assert!(channel.drop().is_none());
    assert_eq!(drops.get(), 0);
    drop(received);
    assert_eq!(drops.get(), 1);
}

// The channel with two handles.

#[test]
fn split_round_trip() {
    let mut channel = send_recv_oneshot_channel_noarc::Channel::new();
    let (sender, receiver) = channel.split();
    assert!(!receiver.is_ready(&channel));
    sender.send(&mut channel, "sender and receiver no arc");
    assert!(receiver.is_ready(&channel));
    assert_eq!(receiver.receive(&mut channel), "sender and receiver no arc");
}

#[test]
fn split_channel_serves_one_handoff_after_another() {
    let mut channel = send_recv_oneshot_channel_noarc::Channel::new();
    for round in 0..3u32 {
        let (sender, receiver) = channel.split();
        assert!(!receiver.is_ready(&channel));
        sender.send(&mut channel, round);
        assert_eq!(receiver.receive(&mut channel), round);
    }
}

#[test]
fn split_destroys_what_the_last_handoff_left() {
    let (message, drops) = counted();
    let mut channel = send_recv_oneshot_channel_noarc::Channel::new();
    let (sender, _receiver) = channel.split();
    sender.send(&mut channel, message);
    assert_eq!(drops.get(), 0);
    let (_sender, receiver) = channel.split();
    assert_eq!(drops.get(), 1);
    assert!(!receiver.is_ready(&channel));
    assert!(channel.drop().is_none());
    assert_eq!(drops.get(), 1);
}

#[test]
fn split_unread_message_is_destroyed_once() {
    let (message, drops) = counted();
    let mut channel = send_recv_oneshot_channel_noarc::Channel::new();
    let (sender, _receiver) = channel.split();
    sender.send(&mut channel, message);
    let unread = channel.drop();
    assert!(unread.is_some());
    assert_eq!(drops.get(), 0);
    drop(unread);
    assert_eq!(drops.get(), 1);
}

#[test]
fn split_without_send_destroys_nothing() {
    let mut channel: send_recv_oneshot_channel_noarc::Channel<Counted> =
        send_recv_oneshot_channel_noarc::Channel::new();
    let (_sender, receiver) = channel.split();
    assert!(!receiver.is_ready(&channel));
    assert!(channel.drop().is_none());
    let channel: send_recv_oneshot_channel_noarc::Channel<u8> = Default::default();
    assert!(channel.drop().is_none());
}

#[test]
fn split_received_message_is_not_destroyed_again() {
    let (message, drops) = counted();
    let mut channel = send_recv_oneshot_channel_noarc::Channel::new();
    let (sender, receiver) = channel.split();
    sender.send(&mut channel, message);
    let received = receiver.receive(&mut channel);
    assert!(channel.drop().is_none());
    assert_eq!(drops.get(), 0);
    drop(received);
    assert_eq!(drops.get(), 1);
}

// The channel whose sender wakes the receiver.

#[test]
fn blocking_round_trip() {
    let mut channel = blocking_oneshot_channel::Channel::new();
    let (sender, receiver) = channel.split(1);
    assert!(!receiver.is_ready(&channel));
    assert_eq!(sender.send(&mut channel, "blocking channel"), 1);
    assert!(receiver.is_ready(&channel));
    assert_eq!(receiver.receive(&mut channel), "blocking channel");
}

#[test]
fn blocking_send_names_the_thread_that_split() {
    let mut channel = blocking_oneshot_channel::Channel::new();
    let (sender, _receiver) = channel.split(77);
    assert_eq!(sender.send(&mut channel, ()), 77);
    let (sender, _receiver) = channel.split(u64::MAX);
    assert_eq!(sender.send(&mut channel, ()), u64::MAX);
}

#[test]
fn blocking_receiver_waits_until_x_is_sent() {
    let mut channel = blocking_oneshot_channel::Channel::new();
    let (sender, mut receiver) = channel.split(3);

    // The sender takes its time: the receiver is resumed again and again,
    // for no reason, and finds nothing.
    let mut turns = 0;
    while turns < 1000 {
        receiver = match receiver.try_receive(&mut channel) {
            Ok(_) => panic!("a message came before it was sent"),
            Err(receiver) => receiver,
        };
        turns += 1;
    }

    assert_eq!(sender.send(&mut channel, "X"), 3);

    match receiver.try_receive(&mut channel) {
        Ok(message) => assert_eq!(message, "X"),
        Err(_) => panic!("the message did not arrive"),
    }
    // It was received once: nothing is left in the channel.
    assert!(channel.drop().is_none());
}

#[test]
fn polling_receiver_waits_until_x_is_sent() {
    let mut channel = send_recv_oneshot_channel_noarc::Channel::new();
    let (sender, receiver) = channel.split();
    let mut sender = Some(sender);
    let mut polls = 0;
    while !receiver.is_ready(&channel) {
        polls += 1;
        if polls == 500 {
            match sender.take() {
                Some(sender) => sender.send(&mut channel, "X"),
                None => panic!("the sender was used twice"),
            }
        }
    }
    assert_eq!(polls, 500);
    assert_eq!(receiver.receive(&mut channel), "X");
    assert!(channel.drop().is_none());
}

#[test]
fn blocking_unread_message_is_destroyed_once() {
    let (message, drops) = counted();
    let mut channel = blocking_oneshot_channel::Channel::new();
    let (sender, _receiver) = channel.split(0);
    sender.send(&mut channel, message);
    let unread = channel.drop();
    assert!(unread.is_some());
    assert_eq!(drops.get(), 0);
    drop(unread);
    assert_eq!(drops.get(), 1);
}

#[test]
fn blocking_without_send_destroys_nothing() {
    let mut channel: blocking_oneshot_channel::Channel<Counted> =
        blocking_oneshot_channel::Channel::new();
    let (_sender, receiver) = channel.split(0);
    assert!(!receiver.is_ready(&channel));
    assert!(channel.drop().is_none());
    let channel: blocking_oneshot_channel::Channel<u8> = Default::default();
    assert!(channel.drop().is_none());
}

#[test]
fn blocking_split_destroys_what_the_last_handoff_left() {
    let (message, drops) = counted();
    let mut channel = blocking_oneshot_channel::Channel::new();
    let (sender, _receiver) = channel.split(0);
    sender.send(&mut channel, message);
    let (_sender, receiver) = channel.split(0);
    assert_eq!(drops.get(), 1);
    assert!(!receiver.is_ready(&channel));
}

#[test]
fn blocking_received_message_is_not_destroyed_again() {
    let (message, drops) = counted();
    let mut channel = blocking_oneshot_channel::Channel::new();
    let (sender, receiver) = channel.split(0);
    sender.send(&mut channel, message);
    let received = receiver.receive(&mut channel);
    assert!(channel.drop().is_none());
    assert_eq!(drops.get(), 0);
    drop(received);
    assert_eq!(drops.get(), 1);
}

// The channel that is a queue.

#[test]
fn naive_messages_arrive_in_the_order_sent() {
    let mut channel = naive_channel::Channel::new();
    for n in 0..5 {
        channel.send(n);
    }
    for n in 0..5 {
        assert_eq!(channel.receive(), n);
    }
    assert_eq!(channel.try_receive(), None);
}

#[test]
fn naive_sends_and_receives_take_turns() {
    let mut channel = naive_channel::Channel::new();
    assert_eq!(channel.try_receive(), None);
    channel.send("a");
    channel.send("b");
    assert_eq!(channel.try_receive(), Some("a"));
    channel.send("c");
    assert_eq!(channel.receive(), "b");
    assert_eq!(channel.receive(), "c");
    assert_eq!(channel.try_receive(), None);
    assert_eq!(channel.try_receive(), None);
    channel.send("d");
    assert_eq!(channel.try_receive(), Some("d"));
}

#[test]
fn naive_reader_polls_until_a_message_waits() {
    let mut channel = naive_channel::Channel::new();
    let mut polls = 0;
    let message = loop {
        match channel.try_receive() {
            Some(message) => break message,
            None => {
                polls += 1;
                if polls == 3 {
                    channel.send("naive channel");
                }
            }
        }
    };
    assert_eq!(polls, 3);
    assert_eq!(message, "naive channel");
}

#[test]
fn naive_unread_messages_go_with_the_channel() {
    let (first, first_drops) = counted();
    let (second, second_drops) = counted();
    {
        let mut channel = naive_channel::Channel::new();
        channel.send(first);
        channel.send(second);
        drop(channel.receive());
        assert_eq!(first_drops.get(), 1);
        assert_eq!(second_drops.get(), 0);
    }
    assert_eq!(first_drops.get(), 1);
    assert_eq!(second_drops.get(), 1);
}
