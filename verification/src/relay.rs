//! The inbound relay: what the host's MIDI subsystem delivers goes into the
//! queue, byte by byte.

use vstd::prelude::*;
use crate::fault::Fault;
use crate::queue::ByteQueue;

verus! {

/// The payloads of a delivery laid end to end: packet boundaries vanish, the
/// order of the bytes stays.
pub open spec fn payload(packets: Seq<Seq<u8>>) -> Seq<u8> {
    packets.flatten()
}

/// The packets of a delivery, each as the sequence of its bytes.
pub open spec fn packet_bytes(packets: Seq<Vec<u8>>) -> Seq<Seq<u8>> {
    packets.map_values(|packet: Vec<u8>| packet@)
}

/// The payloads of the first `count` packets of a delivery.
pub open spec fn payload_upto(packets: &Vec<Vec<u8>>, count: int) -> Seq<u8> {
    payload(packet_bytes(packets@).take(count))
}

/// Taking one more packet appends that packet's bytes.
proof fn lemma_payload_step(packets: &Vec<Vec<u8>>, count: int)
    requires
        0 <= count < packets@.len(),
    ensures
        payload_upto(packets, count + 1) == payload_upto(packets, count) + packets@[count]@,
{
    let all = packet_bytes(packets@);
    assert(all.take(count + 1) =~= all.take(count).push(all[count]));
    all.take(count).lemma_flatten_push(all[count]);
}

/// Enqueues the bytes of one packet in their order.
pub fn relay_packet(data: &[u8], queue: &mut ByteQueue) -> (result: Result<(), Fault>)
    requires
        old(queue).wf(),
    ensures
        final(queue).wf(),
        final(queue).is_open() == old(queue).is_open(),
        final(queue).delivered() == old(queue).delivered(),
        result is Err <==> !old(queue).is_open() && data@.len() > 0,
        result is Err ==> result == Err::<(), Fault>(Fault::QueueTeardownFailure),
        result is Ok ==> final(queue)@ == old(queue)@ + data@,
        result is Ok ==> final(queue).sent() == old(queue).sent() + data@,
        result is Err ==> final(queue)@ == old(queue)@,
        result is Err ==> final(queue).sent() == old(queue).sent(),
{
    let mut i: usize = 0;
    while i < data.len()
        invariant
            0 <= i <= data@.len(),
            queue.wf(),
            queue.is_open() == old(queue).is_open(),
            queue.delivered() == old(queue).delivered(),
            i > 0 ==> queue.is_open(),
            queue@ == old(queue)@ + data@.take(i as int),
            queue.sent() == old(queue).sent() + data@.take(i as int),
        decreases data@.len() - i,
    {
        match queue.send(data[i]) {
            Ok(()) => {},
            Err(fault) => {
                return Err(fault);
            },
        }
        i += 1;
    }
    Ok(())
}

/// Handles one delivery from the host: for each packet, for each byte of its
/// payload, enqueues the byte. The bytes keep their order within a packet and
/// the packets keep theirs; packet boundaries are not kept.
///
/// Fails if and only if the consumer is gone and the delivery holds at least
/// one byte. Nothing is enqueued then.
pub fn relay_packets(packets: &Vec<Vec<u8>>, queue: &mut ByteQueue) -> (result: Result<(), Fault>)
    requires
        old(queue).wf(),
    ensures
        final(queue).wf(),
        final(queue).is_open() == old(queue).is_open(),
        final(queue).delivered() == old(queue).delivered(),
        result is Err <==> !old(queue).is_open() && payload(packet_bytes(packets@)).len() > 0,
        result is Err ==> result == Err::<(), Fault>(Fault::QueueTeardownFailure),
        result is Ok ==> final(queue)@ == old(queue)@ + payload(packet_bytes(packets@)),
        result is Ok ==> final(queue).sent() == old(queue).sent() + payload(packet_bytes(packets@)),
        result is Err ==> final(queue)@ == old(queue)@,
        result is Err ==> final(queue).sent() == old(queue).sent(),
{
    let mut k: usize = 0;
    while k < packets.len()
        invariant
            0 <= k <= packets@.len(),
            queue.wf(),
            queue.is_open() == old(queue).is_open(),
            queue.delivered() == old(queue).delivered(),
            queue@ == old(queue)@ + payload_upto(packets, k as int),
            queue.sent() == old(queue).sent() + payload_upto(packets, k as int),
            !queue.is_open() ==> payload_upto(packets, k as int).len() == 0,
        decreases packets@.len() - k,
    {
        proof {
            lemma_payload_step(packets, k as int);
        }
        match relay_packet(packets[k].as_slice(), queue) {
            Ok(()) => {},
            Err(fault) => {
                proof {
                    lemma_payload_covers(packets, k as int + 1);
                }
                return Err(fault);
            },
        }
        k += 1;
    }
    assert(packet_bytes(packets@).take(k as int) =~= packet_bytes(packets@));
    Ok(())
}

/// The bytes of the first packets of a delivery are among the bytes of the
/// whole delivery.
proof fn lemma_payload_covers(packets: &Vec<Vec<u8>>, count: int)
    requires
        0 <= count <= packets@.len(),
    ensures
        payload_upto(packets, count).len() <= payload(packet_bytes(packets@)).len(),
    decreases packets@.len() - count,
{
    let all = packet_bytes(packets@);
    if count == packets@.len() {
        assert(all.take(count) =~= all);
    } else {
        lemma_payload_step(packets, count);
        lemma_payload_covers(packets, count + 1);
    }
}

/// Where a byte of a delivery ends up: byte `offset` of packet `index` stands
/// in the payload behind all bytes of the packets before it and behind the
/// bytes that precede it in its own packet.
pub proof fn lemma_payload_position(packets: Seq<Seq<u8>>, index: int, offset: int)
    requires
        0 <= index < packets.len(),
        0 <= offset < packets[index].len(),
    ensures
        payload(packets.take(index)).len() + offset < payload(packets).len(),
        payload(packets)[payload(packets.take(index)).len() + offset] == packets[index][offset],
    decreases packets.len(),
{
    let front = packets.drop_last();
    assert(packets =~= front.push(packets.last()));
    front.lemma_flatten_push(packets.last());
    if index < packets.len() - 1 {
        lemma_payload_position(front, index, offset);
        assert(front.take(index) =~= packets.take(index));
    }
}

/// What the relay puts into the queue comes out at the next drain in the
/// order in which it went in. The drain returns what waited before the
/// delivery followed by the delivery's payload, so every byte that waited
/// keeps its place, and byte `offset` of packet `index` comes out behind all
/// of them, behind the bytes of the earlier packets and behind the earlier
/// bytes of its own packet.
pub proof fn lemma_relayed_bytes_keep_their_order(
    waiting: Seq<u8>,
    packets: Seq<Seq<u8>>,
    index: int,
    offset: int,
)
    requires
        0 <= index < packets.len(),
        0 <= offset < packets[index].len(),
    ensures
        (waiting + payload(packets)).len() == waiting.len() + payload(packets).len(),
        forall|i: int| 0 <= i < waiting.len() ==> (waiting + payload(packets))[i] == waiting[i],
        waiting.len() + payload(packets.take(index)).len() + offset < (waiting + payload(
            packets,
        )).len(),
        (waiting + payload(packets))[waiting.len() + payload(packets.take(index)).len() + offset]
            == packets[index][offset],
{
    lemma_payload_position(packets, index, offset);
}

} // verus!
