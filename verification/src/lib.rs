//! A shuffling UDP relay: datagrams carry their destination in a 6-byte
//! header; the relay rewrites the header with the original sender's address,
//! delays each datagram by a random amount (or drops it), and re-emits it.
//!
//! This crate holds the verified core: the reusable buffer pool, the packet
//! header codec, the time-ordered delivery queue, and the decision logic of
//! the reactor loop. Socket and signal handling live outside the library.

pub mod buffer;
pub mod packet;
pub mod queue;
pub mod reactor;
pub mod sample;
