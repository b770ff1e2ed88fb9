//! Bounded broadcast queue.
//!
//! Packets produced by the control loop are staged in a fixed-capacity
//! queue (40 entries) until the radio is up. The queue is deliberately
//! lossy: when an enqueue hits the capacity the whole queue is cleared and
//! the new packet is dropped with it, trading completeness for forward
//! progress under sustained backpressure. Just before broadcast every
//! absolute timestamp is rewritten relative to the newest entry to shrink
//! the payload.
//!
//! The backing store is `heapless::Vec`, kept behind trusted wrappers whose
//! contracts speak about `queue_contents`, the sequence of packets the
//! store holds.

use vstd::prelude::*;

use crate::packet::{spec_packet_congruent, Packet};

verus! {

/// Capacity of the broadcast queue, in packets.
pub const QUEUE_CAPACITY: usize = 40;

/// Declares `heapless::Vec` to the verifier; the type stays opaque and
/// is reached only through the trusted wrappers below.
#[verifier::external_type_specification]
#[verifier::external_body]
#[verifier::reject_recursive_types(T)]
pub struct ExHeaplessVec<T, const N: usize>(heapless::Vec<T, N>);

/// The packets held by the backing store, oldest first.
pub uninterp spec fn queue_contents(q: heapless::Vec<Packet, 40>) -> Seq<Packet>;

/// Relies on `heapless::Vec::new`: the store starts empty.
#[verifier::external_body]
fn store_new() -> (q: heapless::Vec<Packet, 40>)
    ensures
        queue_contents(q) == Seq::<Packet>::empty(),
{
    heapless::Vec::new()
}

/// Relies on `heapless::Vec::push`: appends while the store is below its
/// capacity of 40, hands the packet back untouched once it is full.
#[verifier::external_body]
fn store_push(q: &mut heapless::Vec<Packet, 40>, pkt: Packet) -> (r: Result<(), Packet>)
    ensures
        queue_contents(*old(q)).len() < QUEUE_CAPACITY ==> {
            &&& r is Ok
            &&& queue_contents(*final(q)) == queue_contents(*old(q)).push(pkt)
        },
        queue_contents(*old(q)).len() >= QUEUE_CAPACITY ==> {
            &&& r == Result::<(), Packet>::Err(pkt)
            &&& queue_contents(*final(q)) == queue_contents(*old(q))
        },
{
    q.push(pkt)
}

/// Relies on `heapless::Vec::clear`: removes every packet.
#[verifier::external_body]
fn store_clear(q: &mut heapless::Vec<Packet, 40>)
    ensures
        queue_contents(*final(q)) == Seq::<Packet>::empty(),
{
    q.clear()
}

/// Relies on `heapless::Vec::len`: the number of stored packets.
#[verifier::external_body]
fn store_len(q: &heapless::Vec<Packet, 40>) -> (n: usize)
    ensures
        n == queue_contents(*q).len(),
{
    q.len()
}

/// Relies on `heapless::Vec`'s slice view: clones the stored packets out,
/// oldest first. The clones agree with the stored packets field by
/// field (the magic marker by its characters), which is all
/// `Packet::clone` promises.
#[verifier::external_body]
fn store_items(q: &heapless::Vec<Packet, 40>) -> (items: Vec<Packet>)
    ensures
        items@.len() == queue_contents(*q).len(),
        forall|k: int|
            0 <= k < items@.len() ==> spec_packet_congruent(
                #[trigger] items@[k],
                queue_contents(*q)[k],
            ),
{
    q.iter().cloned().collect()
}

/// What one lossy enqueue leaves in the queue: the packet is appended
/// while there is room; a full queue is cleared instead, the new packet
/// dropped with it.
pub open spec fn spec_enqueue(s: Seq<Packet>, pkt: Packet) -> Seq<Packet> {
    if s.len() < QUEUE_CAPACITY {
        s.push(pkt)
    } else {
        Seq::empty()
    }
}

/// Timestamp of the newest packet of the batch, 0 for an empty batch.
pub open spec fn spec_last_timestamp(s: Seq<Packet>) -> u64 {
    if s.len() == 0 {
        0u64
    } else {
        s.last().header.timestamp
    }
}

/// An absolute timestamp rewritten relative to `last` (saturating at
/// zero).
pub open spec fn spec_rel_timestamp(ts: u64, last: u64) -> u64 {
    if ts >= last {
        (ts - last) as u64
    } else {
        0u64
    }
}

/// True when `out` is `pkt` with its absolute timestamp rewritten relative
/// to `last` and everything else untouched.
pub open spec fn spec_rel_packet(pkt: Packet, last: u64, out: Packet) -> bool {
    &&& out.header.timestamp == spec_rel_timestamp(pkt.header.timestamp, last)
    &&& out.header.magic_view() == pkt.header.magic_view()
    &&& out.header.device_id == pkt.header.device_id
    &&& out.header.rel_timestamp == pkt.header.rel_timestamp
    &&& out.payload == pkt.payload
}

/// The staging queue for outgoing packets.
pub struct PacketQueue {
    store: heapless::Vec<Packet, 40>,
}

impl PacketQueue {
    /// The staged packets, oldest first.
    pub closed spec fn view(&self) -> Seq<Packet> {
        queue_contents(self.store)
    }

    /// Creates an empty queue.
    pub fn new() -> (q: PacketQueue)
        ensures
            q@ == Seq::<Packet>::empty(),
    {
        PacketQueue { store: store_new() }
    }

    /// Number of staged packets.
    pub fn len(&self) -> (n: usize)
        ensures
            n == self@.len(),
    {
        store_len(&self.store)
    }

    /// Stages one packet; lossy on overflow: the 41st packet in a row
    /// clears the queue instead of blocking.
    pub fn enqueue(&mut self, pkt: Packet)
        ensures
            final(self)@ == spec_enqueue(old(self)@, pkt),
    {
        if let Err(_dropped) = store_push(&mut self.store, pkt) {
            store_clear(&mut self.store);
        }
    }

    /// Empties the queue and hands the batch out for broadcast, every
    /// timestamp rewritten relative to the newest entry.
    pub fn take_for_broadcast(&mut self) -> (batch: Vec<Packet>)
        ensures
            batch@.len() == old(self)@.len(),
            forall|k: int|
                0 <= k < batch@.len() ==> spec_rel_packet(
                    old(self)@[k],
                    spec_last_timestamp(old(self)@),
                    #[trigger] batch@[k],
                ),
            final(self)@ == Seq::<Packet>::empty(),
    {
        let ghost contents: Seq<Packet> = self@;
        let mut batch: Vec<Packet> = store_items(&self.store);
        let last: u64 = if batch.len() == 0 {
            0
        } else {
            batch[batch.len() - 1].header.timestamp
        };
        proof {
            assert(batch@.len() > 0 ==> spec_packet_congruent(
                batch@[batch@.len() - 1],
                contents[batch@.len() - 1],
            ));
            assert(last == spec_last_timestamp(contents));
        }
        let n: usize = batch.len();
        let mut i: usize = 0;
        while i < n
            invariant
                n == contents.len(),
                batch@.len() == contents.len(),
                i <= n,
                last == spec_last_timestamp(contents),
                forall|k: int|
                    0 <= k < i ==> spec_rel_packet(contents[k], last, #[trigger] batch@[k]),
                forall|k: int|
                    i <= k < n ==> spec_packet_congruent(#[trigger] batch@[k], contents[k]),
            decreases n - i,
        {
            let mut p: Packet = batch[i].clone();
            let rel: u64 = if p.header.timestamp >= last {
                p.header.timestamp - last
            } else {
                0
            };
            p.header.timestamp = rel;
            batch.set(i, p);
            i += 1;
        }
        store_clear(&mut self.store);
        batch
    }
}

} // verus!
