//! Three small synchronisation primitives, each written as a state machine
//! whose public operations are the indivisible steps of its protocol:
//! a reference-counted shared pointer (`arc`), a spin lock (`spinlock`) and a
//! family of channels that hand one message over (`oneshot_channel`,
//! `mem_opt_oneshot_channel`, `send_recv_oneshot_channel_noarc`,
//! `blocking_oneshot_channel`), with a queue for a loose relative
//! (`naive_channel`). Every step has an exact contract over a mathematical
//! view of the state, and the laws that tie the steps together are proved
//! beside them.
//!
//! A step takes the state it works on by `&mut`. Whoever shares a primitive
//! between threads runs its steps one at a time, each seeing what the steps
//! before it did; in what order the threads' steps then fall is left open,
//! and the laws hold for every order. What a thread keeps between its steps
//! is a handle or a guard: a value of its own, which names its right and
//! holds no reference to the state. A step that must not be taken in some
//! state has that as its condition, and the primitive has a query or a step
//! that tests it: `is_ready` before `receive`, `try_lock` in place of `lock`.
//!
//! `memory_ops` sets the same few operations on a plain integer beside
//! those on an atomic one.

pub mod arc;
pub mod blocking_oneshot_channel;
pub mod mem_opt_oneshot_channel;
pub mod memory_ops;
pub mod naive_channel;
pub mod oneshot_channel;
pub mod send_recv_oneshot_channel_noarc;
pub mod spinlock;
pub mod utils;
