//! Decision logic of the reactor loop: how long to wait, when to ask for
//! writable readiness, what becomes of a received datagram, and how a
//! transmit attempt's outcome is applied to the queue. The socket, poll and
//! signal plumbing that produces the events lives outside the library and
//! hands plain values in.

use vstd::prelude::*;
use crate::buffer::Buffer;
use crate::buffer::BufferPool;
use crate::buffer::MAX_BUFFER_SIZE;
use crate::packet::Endpoint;
use crate::packet::Packet;
use crate::packet::PacketError;
use crate::packet::spec_destination;
use crate::packet::spec_parse_destination;
use crate::queue::Queue;
use crate::sample::sample_drop;
use crate::sample::sample_uniform;

verus! {

/// Drop probability and delay bounds for scheduling received datagrams.
/// The drop probability is the ratio of the two counts; the delay is drawn
/// uniformly from [min_delay, min_delay + rand_delay] milliseconds.
pub struct Config {
    drop_numerator: u32,
    drop_denominator: u32,
    min_delay: u64,
    rand_delay: u64,
}

impl Config {
    /// Of how many chances to drop a received datagram this many are taken.
    pub closed spec fn spec_drop_numerator(self) -> u32 {
        self.drop_numerator
    }

    /// Out of how many chances the drop count is taken.
    pub closed spec fn spec_drop_denominator(self) -> u32 {
        self.drop_denominator
    }

    /// The least scheduled delay, in milliseconds.
    pub closed spec fn spec_min_delay(self) -> u64 {
        self.min_delay
    }

    /// The width of the delay interval, in milliseconds.
    pub closed spec fn spec_rand_delay(self) -> u64 {
        self.rand_delay
    }

    /// Holds of every configuration: the drop ratio is a probability and
    /// the delay interval's upper end fits the timestamp type.
    #[verifier::type_invariant]
    pub open spec fn wf(self) -> bool {
        0 < self.spec_drop_denominator() && self.spec_drop_numerator()
            <= self.spec_drop_denominator() && self.spec_min_delay() + self.spec_rand_delay()
            <= u64::MAX
    }

    /// Validate and build a configuration: `Some` exactly when the drop
    /// ratio is a probability and the delay interval cannot overflow. An
    /// invalid drop ratio is a fatal startup error for the caller.
    pub fn new(drop_numerator: u32, drop_denominator: u32, min_delay: u64, rand_delay: u64) -> (r:
        Option<Config>)
        ensures
            r is Some <==> (0 < drop_denominator && drop_numerator <= drop_denominator && min_delay
                + rand_delay <= u64::MAX),
            r matches Some(c) ==> c.spec_drop_numerator() == drop_numerator
                && c.spec_drop_denominator() == drop_denominator && c.spec_min_delay() == min_delay
                && c.spec_rand_delay() == rand_delay,
    {
        if 0 < drop_denominator && drop_numerator <= drop_denominator && rand_delay <= u64::MAX
            - min_delay {
            Some(Config { drop_numerator, drop_denominator, min_delay, rand_delay })
        } else {
            None
        }
    }

    /// The least scheduled delay, in milliseconds.
    pub fn min_delay(&self) -> (r: u64)
        ensures
            r == self.spec_min_delay(),
    {
        self.min_delay
    }

    /// The width of the delay interval, in milliseconds.
    pub fn rand_delay(&self) -> (r: u64)
        ensures
            r == self.spec_rand_delay(),
    {
        self.rand_delay
    }
}

/// What a transmit attempt toward the head packet's destination returned.
#[derive(Clone, Copy, PartialEq, Eq, Debug)]
pub enum SendOutcome {
    /// This many bytes were sent.
    Sent(usize),
    /// The socket cannot take more data without blocking; the packet must
    /// be retried on the next writable readiness.
    WouldBlock,
    /// A permanent transmit error; the packet is abandoned.
    Failed,
}

/// What became of one received datagram.
#[derive(Clone, Copy, PartialEq, Eq, Debug)]
pub enum IngestOutcome {
    /// The drop sample discarded it; its buffer went back to the pool.
    Dropped,
    /// A packet with this release time joined the queue.
    Scheduled(u64),
    /// Its header could not be parsed; its buffer went back to the pool and
    /// a warning is in order.
    Rejected(PacketError),
}

/// The pool gained exactly one buffer: the given one, reset to full length.
pub open spec fn pool_recycled(old_pool: Seq<Buffer>, new_pool: Seq<Buffer>, b: Buffer) -> bool {
    &&& new_pool.len() == old_pool.len() + 1
    &&& new_pool.drop_last() == old_pool
    &&& new_pool.last().storage() == b.storage()
    &&& new_pool.last().spec_len() == MAX_BUFFER_SIZE
}

/// The packet that scheduling a datagram from `sender` must enqueue: its
/// destination is the one the datagram's first six bytes named, its first
/// six bytes carry the sender's address and port, the rest of the payload
/// is unchanged, and it is due at `release`.
pub open spec fn is_scheduled_packet(
    p: Packet,
    sender: Endpoint,
    storage: Seq<u8>,
    len: nat,
    release: u64,
) -> bool {
    &&& p.dst == spec_destination(storage.take(len as int))
    &&& p.data.storage() == sender.wire_bytes() + storage.skip(6)
    &&& p.data.spec_len() == len
    &&& p.exit_time == release
}

/// The wait before the next wakeup: `None` (wait indefinitely) when the
/// queue is empty, else the time until the earliest packet is due,
/// saturated at zero.
pub fn next_wait(queue: &Queue, now: u64) -> (r: Option<u64>)
    ensures
        (queue@.len() == 0) == r is None,
        queue@.len() > 0 ==> r == Some(
            if now <= queue@.last().exit_time {
                (queue@.last().exit_time - now) as u64
            } else {
                0u64
            },
        ),
{
    match queue.peek() {
        None => None,
        Some(p) => p.get_duration_till_next(now),
    }
}

/// Whether writable readiness should be requested: only when the earliest
/// packet is already due, so the poll does not wake spuriously while
/// nothing can be sent.
pub fn writable_interest(queue: &Queue, now: u64) -> (r: bool)
    ensures
        r == (queue@.len() > 0 && queue@.last().exit_time <= now),
{
    match queue.peek() {
        None => false,
        Some(p) => p.exit_time <= now,
    }
}

/// Apply one transmit attempt's outcome to the queue. On success the head
/// packet leaves the queue and its buffer is recycled; on a would-block the
/// queue and the pool are untouched, so the very same packet is retried on
/// the next writable readiness; on a permanent failure the head packet is
/// abandoned and its buffer recycled. Returns the bytes to count as sent
/// and whether draining may continue.
pub fn handle_send_outcome(queue: &mut Queue, pool: &mut BufferPool, outcome: SendOutcome) -> (r: (
    usize,
    bool,
))
    requires
        old(queue)@.len() > 0,
    ensures
        outcome == SendOutcome::WouldBlock ==> final(queue)@ == old(queue)@ && final(pool)@ == old(
            pool,
        )@ && r == (0usize, false),
        outcome matches SendOutcome::Sent(n) ==> final(queue)@ == old(queue)@.drop_last()
            && pool_recycled(old(pool)@, final(pool)@, old(queue)@.last().data) && r == (n, true),
        outcome == SendOutcome::Failed ==> final(queue)@ == old(queue)@.drop_last()
            && pool_recycled(old(pool)@, final(pool)@, old(queue)@.last().data) && r == (
            0usize,
            true,
        ),
{
    match outcome {
        SendOutcome::WouldBlock => (0, false),
        SendOutcome::Sent(n) => {
            let p = queue.pop().unwrap();
            pool.recycle_byffer(p.data);
            (n, true)
        },
        SendOutcome::Failed => {
            let p = queue.pop().unwrap();
            pool.recycle_byffer(p.data);
            (0, true)
        },
    }
}

/// Decide one received datagram's fate: sample the drop decision; if kept,
/// sample a delay from the configured interval, parse and rewrite the
/// header, and schedule the packet. The buffer returns to the pool unless a
/// packet was scheduled.
pub fn ingest_datagram(
    cfg: &Config,
    queue: &mut Queue,
    pool: &mut BufferPool,
    sender: &Endpoint,
    buffer: Buffer,
    len: usize,
    now: u64,
) -> (r: IngestOutcome)
    requires
        buffer.wf(),
        len <= MAX_BUFFER_SIZE,
        now + cfg.spec_min_delay() + cfg.spec_rand_delay() <= u64::MAX,
    ensures
        r == IngestOutcome::Dropped ==> final(queue)@ == old(queue)@ && pool_recycled(
            old(pool)@,
            final(pool)@,
            buffer,
        ),
        r matches IngestOutcome::Rejected(e) ==> len < 6 && Err::<Endpoint, PacketError>(e)
            == spec_parse_destination(buffer.storage().take(len as int)) && final(queue)@ == old(
            queue,
        )@ && pool_recycled(old(pool)@, final(pool)@, buffer),
        r matches IngestOutcome::Scheduled(t) ==> len >= 6
            && now + cfg.spec_min_delay() <= t
            && t <= now + cfg.spec_min_delay() + cfg.spec_rand_delay()
            && final(pool)@ == old(pool)@
            && final(queue)@.len() == old(queue)@.len() + 1
            && (exists|p: Packet|
                #[trigger] is_scheduled_packet(p, *sender, buffer.storage(), len as nat, t)
                && final(queue)@.to_multiset() == old(queue)@.to_multiset().insert(p)),
        cfg.spec_drop_numerator() == 0 ==> r != IngestOutcome::Dropped,
        cfg.spec_drop_numerator() == cfg.spec_drop_denominator() ==> r == IngestOutcome::Dropped,
        len < 6 ==> !(r is Scheduled),
        cfg.spec_drop_numerator() == 0 && len >= 6 ==> r is Scheduled,
{
    proof {
        use_type_invariant(&*cfg);
    }
    if sample_drop(cfg.drop_numerator, cfg.drop_denominator) {
        pool.recycle_byffer(buffer);
        IngestOutcome::Dropped
    } else {
        let delay = sample_uniform(cfg.min_delay, cfg.min_delay + cfg.rand_delay);
        let release = now + delay;
        match Packet::create(sender, buffer, len, release) {
            Ok(p) => {
                proof {
                    assert(is_scheduled_packet(p, *sender, buffer.storage(), len as nat, release));
                }
                queue.push(p);
                IngestOutcome::Scheduled(release)
            },
            Err((e, buffer)) => {
                pool.recycle_byffer(buffer);
                IngestOutcome::Rejected(e)
            },
        }
    }
}

} // verus!
